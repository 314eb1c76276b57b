//! The typed outcome of an upstream call: HTTP status mapped to a fixed
//! human message, with the one deliberate exception that a 500 on the
//! single-player-lookup path means "player offline", not an error.

use vstd::prelude::*;

use crate::json::{parse_json, parsed_json};
use crate::numfmt::{dec_digits, u64_to_chars};
use crate::render::{
    spec_empty_rendered, Rendered, SpecRendered, COLOR_ACCENT, COLOR_ERROR,
};
use crate::response_formatters::{spec_api_rendered, spec_classify_path, format_api_response};
use crate::serialize::{pretty, to_pretty_string};
use crate::text::{append_str, chars_start_with, chars_to_string, str_to_chars};

verus! {

/// What an upstream reply means, before any rendering.
#[derive(PartialEq, Eq, Structural, Clone, Copy, Debug)]
pub enum ApiOutcome {
    /// A 2xx reply whose body is worth rendering.
    Success,
    /// The lookup endpoint's 500: the player is offline, not an error.
    LookupOffline,
    /// 401.
    AuthError,
    /// 403.
    Forbidden,
    /// 404.
    NotFound,
    /// 429.
    RateLimited,
    /// Any other 500 to 599.
    ServerError,
    /// Any other non-2xx status, echoed verbatim.
    OtherHttp(u16),
}

/// The path prefix of the single-player-lookup endpoint.
pub open spec fn spec_is_lookup_path(p: Seq<char>) -> bool {
    p.len() >= 11 && p.take(11) == "/v1/lookup/"@
}

/// The outcome of a status on a path: 2xx succeeds; 500 on the lookup path
/// is the offline result; the rest map by the fixed table.
pub open spec fn spec_classify_status(status: u16, p: Seq<char>) -> ApiOutcome {
    if 200 <= status < 300 {
        ApiOutcome::Success
    } else if status == 500 && spec_is_lookup_path(p) {
        ApiOutcome::LookupOffline
    } else if status == 401 {
        ApiOutcome::AuthError
    } else if status == 403 {
        ApiOutcome::Forbidden
    } else if status == 404 {
        ApiOutcome::NotFound
    } else if status == 429 {
        ApiOutcome::RateLimited
    } else if 500 <= status <= 599 {
        ApiOutcome::ServerError
    } else {
        ApiOutcome::OtherHttp(status)
    }
}

/// Classifies an upstream HTTP status for the request path it answered.
pub fn classify_status(status: u16, path: &str) -> (r: ApiOutcome)
    ensures
        r == spec_classify_status(status, path@),
{
    if 200 <= status && status < 300 {
        return ApiOutcome::Success;
    }
    if status == 500 {
        let chars = str_to_chars(path);
        proof {
            reveal_strlit("/v1/lookup/");
        }
        if chars_start_with(&chars, "/v1/lookup/") {
            return ApiOutcome::LookupOffline;
        }
    }
    if status == 401 {
        ApiOutcome::AuthError
    } else if status == 403 {
        ApiOutcome::Forbidden
    } else if status == 404 {
        ApiOutcome::NotFound
    } else if status == 429 {
        ApiOutcome::RateLimited
    } else if 500 <= status && status <= 599 {
        ApiOutcome::ServerError
    } else {
        ApiOutcome::OtherHttp(status)
    }
}

/// The fixed message of each failing outcome; empty for the two outcomes
/// that are not errors.
pub open spec fn spec_error_message(o: ApiOutcome) -> Seq<char> {
    match o {
        ApiOutcome::Success => Seq::empty(),
        ApiOutcome::LookupOffline => Seq::empty(),
        ApiOutcome::AuthError => "❌ **Authentication Error**: Invalid API key"@,
        ApiOutcome::Forbidden => "❌ **Access Forbidden**: You don't have permission to access this endpoint"@,
        ApiOutcome::NotFound => "❌ **Not Found**: The requested resource doesn't exist"@,
        ApiOutcome::RateLimited => "❌ **Rate Limited**: Too many requests, please try again later"@,
        ApiOutcome::ServerError => "❌ **Server Error**: The server encountered an error"@,
        ApiOutcome::OtherHttp(s) => "❌ **Error**: API returned HTTP "@ + dec_digits(s as nat),
    }
}

/// The user-visible message of a failing outcome.
pub fn error_message(o: &ApiOutcome) -> (r: String)
    ensures
        r@ == spec_error_message(*o),
{
    match o {
        ApiOutcome::Success => chars_to_string(&Vec::new()),
        ApiOutcome::LookupOffline => chars_to_string(&Vec::new()),
        ApiOutcome::AuthError => chars_to_string(
            &str_to_chars("❌ **Authentication Error**: Invalid API key"),
        ),
        ApiOutcome::Forbidden => chars_to_string(
            &str_to_chars(
                "❌ **Access Forbidden**: You don't have permission to access this endpoint",
            ),
        ),
        ApiOutcome::NotFound => chars_to_string(
            &str_to_chars("❌ **Not Found**: The requested resource doesn't exist"),
        ),
        ApiOutcome::RateLimited => chars_to_string(
            &str_to_chars("❌ **Rate Limited**: Too many requests, please try again later"),
        ),
        ApiOutcome::ServerError => chars_to_string(
            &str_to_chars("❌ **Server Error**: The server encountered an error"),
        ),
        ApiOutcome::OtherHttp(s) => {
            let mut v = str_to_chars("❌ **Error**: API returned HTTP ");
            let mut d = u64_to_chars(*s as u64);
            v.append(&mut d);
            chars_to_string(&v)
        },
    }
}

/// A reply to send for an API command: a rich message, a file attachment
/// when the raw fallback is too long to show inline, or the report of an
/// unreadable body.
pub enum ApiReply {
    Embed(Rendered),
    File { filename: String, content: String, note: String },
    ParseFailed(String),
}

/// The mathematical image of an [`ApiReply`]; the text of a parse failure
/// is the JSON reader's own wording and is not modelled.
pub ghost enum SpecApiReply {
    Embed(SpecRendered),
    File { filename: Seq<char>, content: Seq<char>, note: Seq<char> },
    ParseFailed,
}

impl View for ApiReply {
    type V = SpecApiReply;

    open spec fn view(&self) -> SpecApiReply {
        match self {
            ApiReply::Embed(e) => SpecApiReply::Embed(e@),
            ApiReply::File { filename, content, note } => SpecApiReply::File {
                filename: filename@,
                content: content@,
                note: note@,
            },
            ApiReply::ParseFailed(_) => SpecApiReply::ParseFailed,
        }
    }
}

/// `p` without its leading slashes.
pub open spec fn spec_strip_slashes(p: Seq<char>) -> Seq<char>
    decreases p.len(),
{
    if p.len() > 0 && p[0] == '/' {
        spec_strip_slashes(p.drop_first())
    } else {
        p
    }
}

/// The attachment name for a path: leading slashes dropped, the rest
/// turned into `_`-separated segments, with a `.json` ending.
pub open spec fn spec_fallback_filename(p: Seq<char>) -> Seq<char> {
    spec_strip_slashes(p).map_values(
        |c: char|
            if c == '/' {
                '_'
            } else {
                c
            },
    ) + ".json"@
}

fn fallback_filename(path: &str) -> (r: Vec<char>)
    ensures
        r@ == spec_fallback_filename(path@),
{
    let chars = str_to_chars(path);
    let mut i: usize = 0;
    assert(chars@.skip(0) =~= chars@);
    while i < chars.len() && chars[i] == '/'
        invariant
            i <= chars@.len(),
            chars@ == path@,
            spec_strip_slashes(path@) == spec_strip_slashes(chars@.skip(i as int)),
        decreases chars@.len() - i,
    {
        assert(chars@.skip(i as int)[0] == chars@[i as int]);
        assert(chars@.skip(i as int).drop_first() =~= chars@.skip(i + 1));
        i = i + 1;
    }
    if i < chars.len() {
        assert(chars@.skip(i as int)[0] == chars@[i as int]);
        assert(spec_strip_slashes(chars@.skip(i as int)) == chars@.skip(i as int));
    } else {
        assert(chars@.skip(i as int).len() == 0);
    }
    let mut r: Vec<char> = Vec::new();
    let mut k: usize = i;
    while k < chars.len()
        invariant
            i <= k <= chars@.len(),
            chars@ == path@,
            r@ == chars@.subrange(i as int, k as int).map_values(
                |c: char|
                    if c == '/' {
                        '_'
                    } else {
                        c
                    },
            ),
        decreases chars@.len() - k,
    {
        let c = chars[k];
        if c == '/' {
            r.push('_');
        } else {
            r.push(c);
        }
        k = k + 1;
        assert(r@ =~= chars@.subrange(i as int, k as int).map_values(
            |c: char|
                if c == '/' {
                    '_'
                } else {
                    c
                },
        ));
    }
    assert(chars@.subrange(i as int, chars@.len() as int) =~= chars@.skip(i as int));
    append_str(&mut r, ".json");
    r
}

/// The error embed for a failing outcome: the fixed title, the outcome's
/// message, and a footer naming the status and path.
pub open spec fn spec_error_embed(o: ApiOutcome, status: u16, p: Seq<char>) -> SpecRendered {
    SpecRendered {
        title: Some("DonutSMP API Error"@),
        description: Some(spec_error_message(o)),
        color: COLOR_ERROR,
        footer: Some(
            "Status: "@ + dec_digits(status as nat) + " | Path: "@ + p,
        ),
        ..spec_empty_rendered()
    }
}

/// The offline embed for the lookup endpoint's 500.
pub open spec fn spec_offline_embed(title: Seq<char>) -> SpecRendered {
    SpecRendered {
        title: Some(title),
        description: Some("🔴 Player is offline"@),
        color: COLOR_ACCENT,
        ..spec_empty_rendered()
    }
}

/// What a generic API command replies, given the upstream status and body:
/// the offline embed, an error embed, the endpoint's rendering, the inline
/// raw fallback, or a file when that is over the platform limit.
pub open spec fn spec_api_reply(
    p: Seq<char>,
    title: Seq<char>,
    status: u16,
    body: Seq<char>,
    now: int,
) -> SpecApiReply {
    let outcome = spec_classify_status(status, p);
    if outcome is LookupOffline {
        SpecApiReply::Embed(spec_offline_embed(title))
    } else if !(outcome is Success) {
        SpecApiReply::Embed(spec_error_embed(outcome, status, p))
    } else {
        match parsed_json(body) {
            None => SpecApiReply::ParseFailed,
            Some(json) => {
                let base = SpecRendered {
                    title: Some(title),
                    color: COLOR_ACCENT,
                    ..spec_empty_rendered()
                };
                if spec_classify_path(p) is Some {
                    SpecApiReply::Embed(spec_api_rendered(base, json, p, now))
                } else {
                    let raw = pretty(json, 0);
                    let byte_len = vstd::utf8::encode_utf8(raw).len() as usize;
                    if byte_len <= 4000 {
                        SpecApiReply::Embed(
                            SpecRendered {
                                description: Some("```json\n"@ + raw + "\n```"@),
                                ..base
                            },
                        )
                    } else {
                        SpecApiReply::File {
                            filename: spec_fallback_filename(p),
                            content: raw,
                            note: title + " — Response attached ("@ + dec_digits(
                                byte_len as nat,
                            ) + " bytes)"@,
                        }
                    }
                }
            },
        }
    }
}

/// Decides the whole reply to a generic API command from the upstream
/// status and body text, aging transaction entries against `now_secs`.
pub fn api_reply(
    path: &str,
    friendly_title: &str,
    status: u16,
    body: &str,
    now_secs: i64,
) -> (r: ApiReply)
    ensures
        r@ == spec_api_reply(path@, friendly_title@, status, body@, now_secs as int),
{
    let outcome = classify_status(status, path);
    match outcome {
        ApiOutcome::LookupOffline => {
            let mut e = Rendered::new();
            e.title = Some(chars_to_string(&str_to_chars(friendly_title)));
            e.description = Some(chars_to_string(&str_to_chars("🔴 Player is offline")));
            e.color = COLOR_ACCENT;
            ApiReply::Embed(e)
        },
        ApiOutcome::Success => {
            match parse_json(body) {
                Err(msg) => ApiReply::ParseFailed(msg),
                Ok(json) => {
                    let mut e = Rendered::new();
                    e.title = Some(chars_to_string(&str_to_chars(friendly_title)));
                    e.color = COLOR_ACCENT;
                    let claimed = format_api_response(&json, path, &mut e, now_secs);
                    if claimed {
                        ApiReply::Embed(e)
                    } else {
                        let raw = to_pretty_string(&json);
                        let byte_len = raw.as_str().len();
                        if byte_len <= 4000 {
                            let mut d = str_to_chars("```json\n");
                            append_str(&mut d, raw.as_str());
                            append_str(&mut d, "\n```");
                            assert(d@ =~= "```json\n"@ + pretty(json, 0) + "\n```"@);
                            e.description = Some(chars_to_string(&d));
                            ApiReply::Embed(e)
                        } else {
                            let filename = chars_to_string(&fallback_filename(path));
                            let mut note = str_to_chars(friendly_title);
                            append_str(&mut note, " — Response attached (");
                            let mut n = u64_to_chars(byte_len as u64);
                            note.append(&mut n);
                            append_str(&mut note, " bytes)");
                            assert(note@ =~= friendly_title@ + " — Response attached ("@
                                + dec_digits(
                                (vstd::utf8::encode_utf8(pretty(json, 0)).len() as usize) as nat,
                            ) + " bytes)"@);
                            ApiReply::File { filename, content: raw, note: chars_to_string(&note) }
                        }
                    }
                },
            }
        },
        _ => {
            let mut e = Rendered::new();
            e.title = Some(chars_to_string(&str_to_chars("DonutSMP API Error")));
            e.description = Some(error_message(&outcome));
            e.color = COLOR_ERROR;
            let mut f = str_to_chars("Status: ");
            let mut d = u64_to_chars(status as u64);
            f.append(&mut d);
            append_str(&mut f, " | Path: ");
            append_str(&mut f, path);
            assert(f@ =~= "Status: "@ + dec_digits(status as nat) + " | Path: "@ + path@);
            e.footer = Some(chars_to_string(&f));
            ApiReply::Embed(e)
        },
    }
}

} // verus!
