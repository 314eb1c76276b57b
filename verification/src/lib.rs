//! Logic core of a chat bot that fronts a game-server REST API: routing of
//! commands and button presses, stateless pagination tokens, normalization of
//! loosely structured JSON replies into bounded display text, and the team
//! roster rules.

pub mod codec;
pub mod components;
pub mod formatters;
pub mod gateway;
pub mod json;
pub mod numfmt;
pub mod render;
pub mod response_formatters;
pub mod router;
pub mod serialize;
pub mod team;
pub mod teamview;
pub mod text;

pub use formatters::{
    format_auction_response_with_page, format_leaderboard_response, format_playtime,
    format_stats_response,
};
pub use gateway::{api_reply, classify_status, ApiOutcome, ApiReply};
pub use json::{parse_json, JsonVal};
pub use numfmt::format_number;
pub use render::{Field, Rendered};
pub use router::{plan_command, plan_component, CommandPlan, ComponentPlan, OptVal};
pub use team::{
    country_flag, remove_member, set_name, sort_members, upsert_member, Rank, Team, TeamMember,
};
