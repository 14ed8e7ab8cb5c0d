//! The captcha that new chat members must answer before they may write.
//!
//! A new member is muted and shown a question with two buttons; the answer
//! arrives as a callback. A correct answer restores the chat's default
//! permissions, a wrong one bans the member for a while, and no answer within
//! the time limit does the same. The talking to Telegram, the timers and the
//! JSON of the button payloads are the caller's: the flows here decide what
//! to do next from what happened, and keep the table of members whose
//! captcha is still open.
use vstd::prelude::*;
use std::collections::HashMap;
use crate::markdown::{escape, escaped};

verus! {

broadcast use vstd::std_specs::hash::group_hash_axioms;

/// Seconds a new member has to answer; after that they are banned for as long.
pub const CAPTCHA_TIMEOUT_SECS: u64 = 60;

/// The time limit as the caption words it.
pub const CAPTCHA_DURATION_TEXT: &'static str = "1 минута";

/// The animation sent with the captcha.
pub const GREETING_ANIMATION_URL: &'static str = "https://derpicdn.net/img/2021/12/19/2767482/small.gif";

/// Greeting shown after the member's mention (escaped before sending).
pub const CAPTCHA_GREETING: &'static str = "\nHi, new friend! Привет, поняша :3\n\nОтветь на капчу: ";

/// The question, already in MarkdownV2 (bold).
pub const CAPTCHA_QUESTION: &'static str = "*Путин это кто?*";

/// Start of the time-limit notice (escaped before sending).
pub const CAPTCHA_NOTICE_HEAD: &'static str = "\n\nУ тебя ";

/// End of the time-limit notice (escaped before sending).
pub const CAPTCHA_NOTICE_TAIL: &'static str = " на правильный ответ, иначе будешь кикнут.";

/// Label of the button that answers correctly.
pub const ALLOW_BUTTON_LABEL: &'static str = "Хуйло! 😉";

/// Label of the button that answers wrongly.
pub const DENY_BUTTON_LABEL: &'static str = "Молодец (бан)! 🤨";

/// The time-limit notice, before escaping.
pub open spec fn captcha_notice() -> Seq<char> {
    CAPTCHA_NOTICE_HEAD@ + CAPTCHA_DURATION_TEXT@ + CAPTCHA_NOTICE_TAIL@
}

/// The caption of the captcha for a member whose mention (already MarkdownV2)
/// is `mention`: the mention, the escaped greeting, the bold question and the
/// escaped time-limit notice.
pub open spec fn captcha_caption_text(mention: Seq<char>) -> Seq<char> {
    mention + escaped(CAPTCHA_GREETING@) + CAPTCHA_QUESTION@ + escaped(captcha_notice())
}

/// Builds the caption of the captcha message.
pub fn captcha_caption(mention: &str) -> (caption: String)
    ensures
        caption@ == captcha_caption_text(mention@),
{
    let mut notice = String::from_str(CAPTCHA_NOTICE_HEAD);
    notice.append(CAPTCHA_DURATION_TEXT);
    notice.append(CAPTCHA_NOTICE_TAIL);
    let greeting = escape(CAPTCHA_GREETING);
    let escaped_notice = escape(notice.as_str());
    let mut caption = String::from_str(mention);
    caption.append(greeting.as_str());
    caption.append(CAPTCHA_QUESTION);
    caption.append(escaped_notice.as_str());
    caption
}

/// What a captcha button sends back: for whom the captcha is, and whether
/// the chosen answer lets them in.
#[derive(Clone, Copy, PartialEq, Eq, Debug, Structural)]
pub struct CaptchaReplyPayload {
    pub expected_user_id: u64,
    pub allowed: bool,
}

/// A button under the captcha.
#[derive(Clone, Debug, PartialEq, Eq)]
pub struct CaptchaButton {
    pub label: String,
    pub payload: CaptchaReplyPayload,
}

/// The two answers offered to `user_id`, in the order they are shown: the
/// correct one, then the wrong one.
pub fn captcha_buttons(user_id: u64) -> (buttons: Vec<CaptchaButton>)
    ensures
        buttons@.len() == 2,
        buttons@[0].label@ == ALLOW_BUTTON_LABEL@,
        buttons@[0].payload == (CaptchaReplyPayload { expected_user_id: user_id, allowed: true }),
        buttons@[1].label@ == DENY_BUTTON_LABEL@,
        buttons@[1].payload == (CaptchaReplyPayload { expected_user_id: user_id, allowed: false }),
{
    let mut buttons: Vec<CaptchaButton> = Vec::new();
    buttons.push(
        CaptchaButton {
            label: String::from_str(ALLOW_BUTTON_LABEL),
            payload: CaptchaReplyPayload { expected_user_id: user_id, allowed: true },
        },
    );
    buttons.push(
        CaptchaButton {
            label: String::from_str(DENY_BUTTON_LABEL),
            payload: CaptchaReplyPayload { expected_user_id: user_id, allowed: false },
        },
    );
    buttons
}

/// A message in a chat.
#[derive(Clone, Copy, PartialEq, Eq, Debug, Structural)]
pub struct MessageRef {
    pub chat_id: i64,
    pub message_id: i32,
}

/// A ban of `user_id` from `chat_id` until the Unix time `until` (seconds).
#[derive(Clone, Copy, PartialEq, Eq, Debug, Structural)]
pub struct KickOrder {
    pub chat_id: i64,
    pub user_id: u64,
    pub until: i64,
}

/// The ban given for a failed captcha, issued at Unix time `now`: it lasts
/// as long as the time that was given to answer.
pub fn kick_user_due_to_captcha(chat_id: i64, user_id: u64, now: i64) -> (order: KickOrder)
    requires
        now + CAPTCHA_TIMEOUT_SECS <= i64::MAX,
    ensures
        order.chat_id == chat_id,
        order.user_id == user_id,
        order.until == now + CAPTCHA_TIMEOUT_SECS,
{
    KickOrder { chat_id, user_id, until: now + CAPTCHA_TIMEOUT_SECS as i64 }
}

/// The members whose captcha is still open, each with the handle that stops
/// the watch on their time limit.
pub struct PendingCaptchas<W> {
    watches: HashMap<u64, W>,
}

impl<W> View for PendingCaptchas<W> {
    type V = Map<u64, W>;

    closed spec fn view(&self) -> Map<u64, W> {
        self.watches@
    }
}

/// The entry that `key` had in `m`, if any.
pub open spec fn entry_of<W>(m: Map<u64, W>, key: u64) -> Option<W> {
    if m.contains_key(key) {
        Some(m[key])
    } else {
        None
    }
}

impl<W> PendingCaptchas<W> {
    /// No captcha is open.
    pub fn new() -> (pending: PendingCaptchas<W>)
        ensures
            pending@ == Map::<u64, W>::empty(),
    {
        PendingCaptchas { watches: HashMap::new() }
    }

    /// Opens the captcha of `user_id` with the given watch; a watch the user
    /// already had is replaced and handed back.
    pub(crate) fn register(&mut self, user_id: u64, watch: W) -> (displaced: Option<W>)
        ensures
            final(self)@ == old(self)@.insert(user_id, watch),
            displaced == entry_of(old(self)@, user_id),
    {
        self.watches.insert(user_id, watch)
    }

    /// Closes the captcha of `user_id`, handing back its watch if it was open.
    pub(crate) fn take(&mut self, user_id: u64) -> (watch: Option<W>)
        ensures
            final(self)@ == old(self)@.remove(user_id),
            watch == entry_of(old(self)@, user_id),
    {
        self.watches.remove(&user_id)
    }

    /// Whether the captcha of `user_id` is open.
    pub fn is_pending(&self, user_id: u64) -> (open: bool)
        ensures
            open == self@.contains_key(user_id),
    {
        self.watches.contains_key(&user_id)
    }
}

/// Closing a captcha right after opening it gives back the watch it was
/// opened with, and leaves the other open captchas as they were.
pub proof fn law_take_after_register<W>(pending: Map<u64, W>, user_id: u64, watch: W)
    ensures
        entry_of(pending.insert(user_id, watch), user_id) == Some(watch),
        pending.insert(user_id, watch).remove(user_id) == pending.remove(user_id),
{
    assert(pending.insert(user_id, watch).remove(user_id) =~= pending.remove(user_id));
}

/// Opening a captcha for one member never touches the captcha of another.
pub proof fn law_register_keeps_others<W>(pending: Map<u64, W>, user_id: u64, watch: W, other: u64)
    requires
        other != user_id,
    ensures
        entry_of(pending.insert(user_id, watch), other) == entry_of(pending, other),
{
}

/// The caption begins with the mention, character for character, whatever
/// its length, and what follows it is the same text for every mention.
pub proof fn law_caption_keeps_mention(mention: Seq<char>, other: Seq<char>)
    ensures
        captcha_caption_text(mention).len() >= mention.len(),
        captcha_caption_text(mention).subrange(0, mention.len() as int) == mention,
        captcha_caption_text(mention).subrange(mention.len() as int, captcha_caption_text(mention).len() as int)
            == captcha_caption_text(other).subrange(other.len() as int, captcha_caption_text(other).len() as int),
{
    let rest = escaped(CAPTCHA_GREETING@) + CAPTCHA_QUESTION@ + escaped(captcha_notice());
    assert(captcha_caption_text(mention) =~= mention + rest);
    assert(captcha_caption_text(other) =~= other + rest);
    assert((mention + rest).subrange(0, mention.len() as int) =~= mention);
    assert((mention + rest).subrange(mention.len() as int, (mention + rest).len() as int) =~= rest);
    assert((other + rest).subrange(other.len() as int, (other + rest).len() as int) =~= rest);
}

} // verus!
