//! Verified core of a Telegram moderation bot: the new-member captcha flow,
//! its reply handling, the command dispatcher and the bot's error values.
use vstd::prelude::*;

pub mod captcha;
pub mod cmd;
pub mod error;
pub mod markdown;
pub mod newcomer;
pub mod reply;
pub mod std_ext;
pub mod table;
pub mod text;

verus! {

} // verus!
