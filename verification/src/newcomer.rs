//! Welcoming a member who joined a chat: mute them, post the captcha, watch
//! the time limit, and decide what happens when the limit is reached.
//!
//! `start_newcomer` and `step_newcomer` drive one member, as the reply flow
//! does: the caller carries out each action and reports what happened.
use vstd::prelude::*;
use crate::reply::{
    pending_after_step, reply_start_spec, reply_step_spec, CaptchaReply, ReplyAction, ReplyEvent,
    ReplyOutcome, ReplyStage,
};
use crate::captcha::{
    captcha_caption, captcha_buttons, captcha_caption_text, CaptchaButton, CaptchaReplyPayload,
    MessageRef, PendingCaptchas, ALLOW_BUTTON_LABEL, DENY_BUTTON_LABEL,
};

verus! {

/// A member who just joined.
#[derive(Clone, Debug, PartialEq, Eq)]
pub struct Newcomer {
    pub user_id: u64,
    /// The member's mention, already in MarkdownV2.
    pub mention: String,
}

/// Where the welcome of one member stands.
#[derive(Debug, PartialEq, Eq)]
pub enum NewcomerStage {
    /// Waiting for the member to be muted; the captcha is ready.
    Muting {
        chat_id: i64,
        join_message_id: i32,
        user_id: u64,
        caption: String,
        buttons: Vec<CaptchaButton>,
    },
    /// Waiting for the captcha to be posted.
    Announcing { chat_id: i64, user_id: u64 },
    /// Waiting for the time-limit watch to be started.
    Arming { captcha: MessageRef, user_id: u64 },
    /// The captcha is open and watched.
    Watched,
}

/// What the caller must do next.
#[derive(Debug, PartialEq, Eq)]
pub enum NewcomerAction {
    /// Take every permission from the member.
    MuteUser { chat_id: i64, user_id: u64 },
    /// Post the greeting animation with this caption and these buttons, as a
    /// reply to the join message.
    SendCaptcha { chat_id: i64, reply_to: i32, caption: String, buttons: Vec<CaptchaButton> },
    /// Start watching the time limit of the captcha posted as `captcha`.
    ArmTimeout { captcha: MessageRef, user_id: u64 },
    /// Nothing more to do.
    Done,
}

/// What the caller observed after carrying out the last action; `W` is the
/// handle that stops a time-limit watch.
#[derive(Debug, PartialEq, Eq)]
pub enum NewcomerEvent<W> {
    UserMuted,
    CaptchaSent { message_id: i32 },
    TimeoutArmed { watch: W },
}

/// `buttons` are the captcha's two answers for `user_id`: right, then wrong.
pub open spec fn are_captcha_buttons(buttons: Seq<CaptchaButton>, user_id: u64) -> bool {
    &&& buttons.len() == 2
    &&& buttons[0].label@ == ALLOW_BUTTON_LABEL@
    &&& buttons[0].payload == (CaptchaReplyPayload { expected_user_id: user_id, allowed: true })
    &&& buttons[1].label@ == DENY_BUTTON_LABEL@
    &&& buttons[1].payload == (CaptchaReplyPayload { expected_user_id: user_id, allowed: false })
}

/// The event is the one the stage waits for.
pub open spec fn newcomer_event_fits<W>(stage: NewcomerStage, event: NewcomerEvent<W>) -> bool {
    match stage {
        NewcomerStage::Muting { .. } => event is UserMuted,
        NewcomerStage::Announcing { .. } => event is CaptchaSent,
        NewcomerStage::Arming { .. } => event is TimeoutArmed,
        NewcomerStage::Watched => false,
    }
}

/// The next stage and action.
pub open spec fn newcomer_step_spec<W>(stage: NewcomerStage, event: NewcomerEvent<W>) -> (
    NewcomerStage,
    NewcomerAction,
) {
    match (stage, event) {
        (
            NewcomerStage::Muting { chat_id, join_message_id, user_id, caption, buttons },
            NewcomerEvent::UserMuted,
        ) => (
            NewcomerStage::Announcing { chat_id, user_id },
            NewcomerAction::SendCaptcha { chat_id, reply_to: join_message_id, caption, buttons },
        ),
        (NewcomerStage::Announcing { chat_id, user_id }, NewcomerEvent::CaptchaSent { message_id }) => {
            let captcha = MessageRef { chat_id, message_id };
            (NewcomerStage::Arming { captcha, user_id }, NewcomerAction::ArmTimeout { captcha, user_id })
        },
        (NewcomerStage::Arming { .. }, NewcomerEvent::TimeoutArmed { .. }) => (
            NewcomerStage::Watched,
            NewcomerAction::Done,
        ),
        _ => (stage, NewcomerAction::Done),
    }
}

/// The open captchas after the step: arming the watch opens the member's
/// captcha with it.
pub open spec fn newcomer_pending_after<W>(
    stage: NewcomerStage,
    event: NewcomerEvent<W>,
    pending: Map<u64, W>,
) -> Map<u64, W> {
    match (stage, event) {
        (NewcomerStage::Arming { user_id, .. }, NewcomerEvent::TimeoutArmed { watch }) => pending.insert(
            user_id,
            watch,
        ),
        _ => pending,
    }
}

/// Begins welcoming `newcomer`, who joined `chat_id` with the message
/// `join_message_id`: the captcha is prepared and the member is to be muted
/// first.
pub fn start_newcomer(chat_id: i64, join_message_id: i32, newcomer: Newcomer) -> (res: (
    NewcomerStage,
    NewcomerAction,
))
    ensures
        res.1 == (NewcomerAction::MuteUser { chat_id, user_id: newcomer.user_id }),
        res.0 matches NewcomerStage::Muting { chat_id: c, join_message_id: j, user_id: u, caption, buttons }
            && c == chat_id && j == join_message_id && u == newcomer.user_id
            && caption@ == captcha_caption_text(newcomer.mention@)
            && are_captcha_buttons(buttons@, newcomer.user_id),
{
    let caption = captcha_caption(newcomer.mention.as_str());
    let buttons = captcha_buttons(newcomer.user_id);
    (
        NewcomerStage::Muting {
            chat_id,
            join_message_id,
            user_id: newcomer.user_id,
            caption,
            buttons,
        },
        NewcomerAction::MuteUser { chat_id, user_id: newcomer.user_id },
    )
}

/// Takes the next step of welcoming a member.
pub fn step_newcomer<W>(
    stage: NewcomerStage,
    event: NewcomerEvent<W>,
    pending: &mut PendingCaptchas<W>,
) -> (res: (NewcomerStage, NewcomerAction))
    requires
        newcomer_event_fits(stage, event),
    ensures
        res == newcomer_step_spec(stage, event),
        final(pending)@ == newcomer_pending_after(stage, event, old(pending)@),
{
    match stage {
        NewcomerStage::Muting { chat_id, join_message_id, user_id, caption, buttons } => (
            NewcomerStage::Announcing { chat_id, user_id },
            NewcomerAction::SendCaptcha { chat_id, reply_to: join_message_id, caption, buttons },
        ),
        NewcomerStage::Announcing { chat_id, user_id } => match event {
            NewcomerEvent::CaptchaSent { message_id } => {
                let captcha = MessageRef { chat_id, message_id };
                (NewcomerStage::Arming { captcha, user_id }, NewcomerAction::ArmTimeout { captcha, user_id })
            },
            _ => unreached(),
        },
        NewcomerStage::Arming { user_id, .. } => match event {
            NewcomerEvent::TimeoutArmed { watch } => {
                pending.register(user_id, watch);
                (NewcomerStage::Watched, NewcomerAction::Done)
            },
            _ => unreached(),
        },
        NewcomerStage::Watched => unreached(),
    }
}

/// How the wait for an answer ended.
#[derive(Clone, Copy, PartialEq, Eq, Debug, Structural)]
pub enum TimeoutOutcome {
    /// The member answered in time.
    Answered,
    /// The handle that stops the watch was dropped without being used.
    WatchDropped,
    /// The time limit ran out.
    Elapsed,
}

/// What to do when the wait for an answer ends.
#[derive(Clone, Copy, PartialEq, Eq, Debug, Structural)]
pub enum TimeoutAction {
    Nothing,
    /// Log that the watch was dropped unused: that is a bug.
    ReportDroppedWatch,
    /// Delete the captcha message and ban the member, both at once.
    DeleteAndKick { captcha: MessageRef, user_id: u64 },
}

/// What to do when the wait for `user_id`'s answer to `captcha` ends.
pub open spec fn timeout_action_spec(outcome: TimeoutOutcome, captcha: MessageRef, user_id: u64) -> TimeoutAction {
    match outcome {
        TimeoutOutcome::Answered => TimeoutAction::Nothing,
        TimeoutOutcome::WatchDropped => TimeoutAction::ReportDroppedWatch,
        TimeoutOutcome::Elapsed => TimeoutAction::DeleteAndKick { captcha, user_id },
    }
}

/// Decides what happens when the wait for `user_id`'s answer to the captcha
/// `captcha` ends: only a time limit that ran out costs the member anything.
pub fn on_captcha_timeout(outcome: TimeoutOutcome, captcha: MessageRef, user_id: u64) -> (action:
    TimeoutAction)
    ensures
        action == timeout_action_spec(outcome, captcha, user_id),
{
    match outcome {
        TimeoutOutcome::Answered => TimeoutAction::Nothing,
        TimeoutOutcome::WatchDropped => TimeoutAction::ReportDroppedWatch,
        TimeoutOutcome::Elapsed => TimeoutAction::DeleteAndKick { captcha, user_id },
    }
}

/// The index of the first failure among `results`, if any.
pub open spec fn first_failure_index<E>(results: Seq<Result<(), E>>) -> Option<int>
    decreases results.len(),
{
    if results.len() == 0 {
        None
    } else if results[0] is Err {
        Some(0)
    } else {
        match first_failure_index(results.drop_first()) {
            Some(i) => Some(i + 1),
            None => None,
        }
    }
}

/// A first failure at `i`, after successes only, is the first failure; with
/// successes only, there is none.
proof fn lemma_first_failure_at<E>(results: Seq<Result<(), E>>, i: int)
    requires
        0 <= i <= results.len(),
        forall|j: int| 0 <= j < i ==> results[j] is Ok,
        i < results.len() ==> results[i] is Err,
    ensures
        first_failure_index(results) == (if i < results.len() {
            Some(i)
        } else {
            None::<int>
        }),
    decreases i,
{
    if results.len() > 0 && i > 0 {
        let rest = results.drop_first();
        assert forall|j: int| 0 <= j < i - 1 implies rest[j] is Ok by {
            assert(rest[j] == results[j + 1]);
        }
        if i < results.len() {
            assert(rest[i - 1] == results[i]);
        }
        lemma_first_failure_at(rest, i - 1);
    }
}

/// The welcomes of all members who joined together, taken as one: a success
/// when each succeeded, else the first failure in the order the members are
/// listed.
pub fn combine_welcomes<E>(results: Vec<Result<(), E>>) -> (res: Result<(), E>)
    ensures
        match first_failure_index(results@) {
            None => res is Ok,
            Some(i) => res == results@[i],
        },
{
    let ghost all = results@;
    let mut remaining = results;
    let mut k: usize = 0;
    while k < remaining.len()
        invariant
            remaining@ == all,
            all == results@,
            0 <= k <= remaining.len(),
            forall|j: int| 0 <= j < k ==> remaining@[j] is Ok,
        decreases remaining.len() - k,
    {
        if remaining[k].is_err() {
            proof {
                lemma_first_failure_at(all, k as int);
            }
            return remaining.remove(k);
        }
        k += 1;
    }
    proof {
        lemma_first_failure_at(all, k as int);
    }
    Ok(())
}

/// Welcoming a member goes: mute them; once muted, post the prepared captcha
/// as a reply to their join message; once posted, watch its time limit;
/// once watched, their captcha is open with that watch.
pub proof fn law_welcome_order<W>(
    chat_id: i64,
    join_message_id: i32,
    user_id: u64,
    caption: String,
    buttons: Vec<CaptchaButton>,
    message_id: i32,
    watch: W,
    pending: Map<u64, W>,
)
    ensures
        ({
            let muting = NewcomerStage::Muting { chat_id, join_message_id, user_id, caption, buttons };
            let muted = newcomer_step_spec(muting, NewcomerEvent::<W>::UserMuted);
            let sent = newcomer_step_spec(muted.0, NewcomerEvent::<W>::CaptchaSent { message_id });
            let armed = newcomer_step_spec(sent.0, NewcomerEvent::TimeoutArmed { watch });
            let captcha = MessageRef { chat_id, message_id };
            &&& muted.1 == NewcomerAction::SendCaptcha {
                chat_id,
                reply_to: join_message_id,
                caption,
                buttons,
            }
            &&& sent.1 == NewcomerAction::ArmTimeout { captcha, user_id }
            &&& armed.1 == NewcomerAction::Done
            &&& newcomer_pending_after(muting, NewcomerEvent::<W>::UserMuted, pending) == pending
            &&& newcomer_pending_after(muted.0, NewcomerEvent::<W>::CaptchaSent { message_id }, pending) == pending
            &&& newcomer_pending_after(sent.0, NewcomerEvent::TimeoutArmed { watch }, pending)
                == pending.insert(user_id, watch)
        }),
{
}

/// The press of one of a welcomed member's buttons on their captcha.
pub open spec fn press_on_captcha(captcha: MessageRef, presser: u64, data: String) -> CaptchaReply {
    CaptchaReply { from_user_id: presser, data: Some(data), message: Some(captcha) }
}

/// A welcomed member who presses the right button of their captcha, in time,
/// stops the very watch their captcha was opened with, and ends with the
/// chat's default permissions.
pub proof fn law_welcomed_member_right_answer<W, P>(
    captcha: MessageRef,
    user_id: u64,
    buttons: Seq<CaptchaButton>,
    data: String,
    watch: W,
    pending: Map<u64, W>,
    defaults: P,
)
    requires
        are_captcha_buttons(buttons, user_id),
    ensures
        ({
            let open = pending.insert(user_id, watch);
            let first = reply_start_spec::<W, P>(press_on_captcha(captcha, user_id, data));
            let decoded = ReplyEvent::<P>::PayloadDecoded { payload: buttons[0].payload };
            let second = reply_step_spec(first.0, decoded, open);
            let left = pending_after_step(first.0, decoded, open);
            let third = reply_step_spec(second.0, ReplyEvent::<P>::TimeoutCancelled { delivered: true }, left);
            let fourth = reply_step_spec(third.0, ReplyEvent::<P>::MessageDeleted, left);
            let fifth = reply_step_spec(
                fourth.0,
                ReplyEvent::<P>::PermissionsFetched { permissions: Some(defaults) },
                left,
            );
            &&& second.1 == ReplyAction::<W, P>::CancelTimeout { watch }
            &&& !left.contains_key(user_id)
            &&& fifth.1 == ReplyAction::<W, P>::RestrictUser {
                chat_id: captcha.chat_id,
                user_id,
                permissions: defaults,
            }
            &&& fifth.0 == ReplyStage::Finished { outcome: ReplyOutcome::Restored }
        }),
{
}

/// A welcomed member who presses the wrong button of their captcha, in time,
/// stops the watch their captcha was opened with and is banned from the chat.
pub proof fn law_welcomed_member_wrong_answer<W, P>(
    captcha: MessageRef,
    user_id: u64,
    buttons: Seq<CaptchaButton>,
    data: String,
    watch: W,
    pending: Map<u64, W>,
)
    requires
        are_captcha_buttons(buttons, user_id),
    ensures
        ({
            let open = pending.insert(user_id, watch);
            let first = reply_start_spec::<W, P>(press_on_captcha(captcha, user_id, data));
            let decoded = ReplyEvent::<P>::PayloadDecoded { payload: buttons[1].payload };
            let second = reply_step_spec(first.0, decoded, open);
            let left = pending_after_step(first.0, decoded, open);
            let third = reply_step_spec(second.0, ReplyEvent::<P>::TimeoutCancelled { delivered: true }, left);
            let fourth = reply_step_spec(third.0, ReplyEvent::<P>::MessageDeleted, left);
            &&& second.1 == ReplyAction::<W, P>::CancelTimeout { watch }
            &&& !left.contains_key(user_id)
            &&& fourth.1 == ReplyAction::<W, P>::KickUser { chat_id: captcha.chat_id, user_id }
            &&& fourth.0 == ReplyStage::Finished { outcome: ReplyOutcome::Kicked }
        }),
{
}

/// Anyone other than the welcomed member who presses a button of their
/// captcha changes nothing: the member's captcha stays open with its watch.
pub proof fn law_other_presser_keeps_captcha_open<W, P>(
    captcha: MessageRef,
    user_id: u64,
    presser: u64,
    buttons: Seq<CaptchaButton>,
    which: int,
    data: String,
    watch: W,
    pending: Map<u64, W>,
)
    requires
        are_captcha_buttons(buttons, user_id),
        presser != user_id,
        0 <= which < 2,
    ensures
        ({
            let open = pending.insert(user_id, watch);
            let first = reply_start_spec::<W, P>(press_on_captcha(captcha, presser, data));
            let decoded = ReplyEvent::<P>::PayloadDecoded { payload: buttons[which].payload };
            &&& reply_step_spec(first.0, decoded, open) == (
                ReplyStage::Finished { outcome: ReplyOutcome::ForeignUser },
                ReplyAction::<W, P>::Stop,
            )
            &&& pending_after_step(first.0, decoded, open) == open
            &&& open[user_id] == watch
        }),
{
}

/// Only a time limit that ran out bans the member, and then it is the member
/// the captcha was for, from the chat the captcha was posted in.
pub proof fn law_only_elapsed_time_bans(outcome: TimeoutOutcome, captcha: MessageRef, user_id: u64)
    ensures
        (outcome != TimeoutOutcome::Elapsed) ==> !(timeout_action_spec(outcome, captcha, user_id) is DeleteAndKick),
        (outcome == TimeoutOutcome::Elapsed) ==> timeout_action_spec(outcome, captcha, user_id)
            == (TimeoutAction::DeleteAndKick { captcha, user_id }),
{
}

/// The first failure is a failure preceded only by successes; when there is
/// none, every result is a success.
pub proof fn law_first_failure_is_first<E>(results: Seq<Result<(), E>>)
    ensures
        first_failure_index(results) matches Some(i) ==> 0 <= i < results.len()
            && results[i] is Err && forall|j: int| 0 <= j < i ==> (#[trigger] results[j]) is Ok,
        first_failure_index(results) is None ==> forall|j: int|
            0 <= j < results.len() ==> (#[trigger] results[j]) is Ok,
    decreases results.len(),
{
    if results.len() > 0 {
        let rest = results.drop_first();
        law_first_failure_is_first(rest);
        if results[0] is Ok {
            assert forall|j: int| 1 <= j < results.len() implies results[j] == rest[j - 1] by {}
        }
    }
}

} // verus!
