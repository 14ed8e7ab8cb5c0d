//! Handling of a press on a captcha button.
//!
//! `start_reply` looks at the callback query; each later `step_reply` takes
//! what the caller observed after carrying out the previous action. The run
//! ends when the stage is `Finished`; the action given with that stage is the
//! last one to carry out.
use vstd::prelude::*;
use crate::captcha::{CaptchaReplyPayload, MessageRef, PendingCaptchas};

verus! {

/// The parts of a callback query that decide what happens.
#[derive(Clone, Debug, PartialEq, Eq)]
pub struct CaptchaReply {
    /// Who pressed the button.
    pub from_user_id: u64,
    /// The data attached to the pressed button.
    pub data: Option<String>,
    /// The captcha message the button was under.
    pub message: Option<MessageRef>,
}

/// How the handling of a reply ended.
#[derive(Clone, Copy, PartialEq, Eq, Debug, Structural)]
pub enum ReplyOutcome {
    /// The query carried no data: ignored.
    EmptyData,
    /// The query carried no message: ignored.
    EmptyMessage,
    /// Someone pressed a button of a captcha meant for another member: ignored.
    ForeignUser,
    /// The time limit had already run out, so its ban is under way: ignored.
    TimeoutAlreadyFired,
    /// Wrong answer: the member is banned.
    Kicked,
    /// Right answer, but the chat has no default permissions to restore.
    NoDefaultPermissions,
    /// Right answer: the chat's default permissions are restored.
    Restored,
}

/// Where the handling of a reply stands.
#[derive(Clone, Copy, PartialEq, Eq, Debug, Structural)]
pub enum ReplyStage {
    /// Waiting for the button data to be decoded.
    Decoding { captcha: MessageRef, from_user_id: u64 },
    /// Waiting for the time-limit watch to be stopped.
    Cancelling { captcha: MessageRef, user_id: u64, allowed: bool },
    /// Waiting for the captcha message to be deleted.
    Deleting { captcha: MessageRef, user_id: u64, allowed: bool },
    /// Waiting for the chat's default permissions.
    FetchingPermissions { chat_id: i64, user_id: u64 },
    /// Done.
    Finished { outcome: ReplyOutcome },
}

/// What the caller must do next. `W` is the handle of a time-limit watch,
/// `P` a set of chat permissions.
#[derive(Debug, PartialEq, Eq)]
pub enum ReplyAction<W, P> {
    /// Decode the button data as a `CaptchaReplyPayload`.
    DecodePayload { data: String },
    /// Tell the time-limit watch that the member answered.
    CancelTimeout { watch: W },
    /// Delete the captcha message.
    DeleteMessage { captcha: MessageRef },
    /// Ban the member for a failed captcha.
    KickUser { chat_id: i64, user_id: u64 },
    /// Look up the chat's default member permissions.
    FetchPermissions { chat_id: i64 },
    /// Give the member these permissions.
    RestrictUser { chat_id: i64, user_id: u64, permissions: P },
    /// Nothing more to do.
    Stop,
}

/// What the caller observed after carrying out the last action.
#[derive(Debug, PartialEq, Eq)]
pub enum ReplyEvent<P> {
    /// The button data decoded to this payload.
    PayloadDecoded { payload: CaptchaReplyPayload },
    /// The watch was told; `delivered` is false when it had already stopped.
    TimeoutCancelled { delivered: bool },
    /// The captcha message is gone.
    MessageDeleted,
    /// The chat's default permissions, if it has any.
    PermissionsFetched { permissions: Option<P> },
}

/// How far a stage is along the run; every step moves strictly forward.
pub open spec fn stage_rank(stage: ReplyStage) -> nat {
    match stage {
        ReplyStage::Decoding { .. } => 1,
        ReplyStage::Cancelling { .. } => 2,
        ReplyStage::Deleting { .. } => 3,
        ReplyStage::FetchingPermissions { .. } => 4,
        ReplyStage::Finished { .. } => 5,
    }
}

/// The first stage and action for a callback query: queries without data or
/// without a message are ignored (in that order of checking); otherwise the
/// data is to be decoded.
pub open spec fn reply_start_spec<W, P>(reply: CaptchaReply) -> (ReplyStage, ReplyAction<W, P>) {
    match reply.data {
        None => (ReplyStage::Finished { outcome: ReplyOutcome::EmptyData }, ReplyAction::Stop),
        Some(data) => match reply.message {
            None => (ReplyStage::Finished { outcome: ReplyOutcome::EmptyMessage }, ReplyAction::Stop),
            Some(captcha) => (
                ReplyStage::Decoding { captcha, from_user_id: reply.from_user_id },
                ReplyAction::DecodePayload { data },
            ),
        },
    }
}

/// The event is the one the stage waits for.
pub open spec fn event_fits<P>(stage: ReplyStage, event: ReplyEvent<P>) -> bool {
    match stage {
        ReplyStage::Decoding { .. } => event is PayloadDecoded,
        ReplyStage::Cancelling { .. } => event is TimeoutCancelled,
        ReplyStage::Deleting { .. } => event is MessageDeleted,
        ReplyStage::FetchingPermissions { .. } => event is PermissionsFetched,
        ReplyStage::Finished { .. } => false,
    }
}

/// The member whose open captcha the step closes: the presser, when the
/// decoded payload names them.
pub open spec fn closes_captcha_of<P>(stage: ReplyStage, event: ReplyEvent<P>) -> Option<u64> {
    match stage {
        ReplyStage::Decoding { from_user_id, .. } => match event {
            ReplyEvent::PayloadDecoded { payload } => if payload.expected_user_id == from_user_id {
                Some(from_user_id)
            } else {
                None
            },
            _ => None,
        },
        _ => None,
    }
}

/// The open captchas after the step.
pub open spec fn pending_after_step<W, P>(
    stage: ReplyStage,
    event: ReplyEvent<P>,
    pending: Map<u64, W>,
) -> Map<u64, W> {
    match closes_captcha_of(stage, event) {
        Some(user_id) => pending.remove(user_id),
        None => pending,
    }
}

/// The next stage and action.
pub open spec fn reply_step_spec<W, P>(
    stage: ReplyStage,
    event: ReplyEvent<P>,
    pending: Map<u64, W>,
) -> (ReplyStage, ReplyAction<W, P>) {
    match (stage, event) {
        (ReplyStage::Decoding { captcha, from_user_id }, ReplyEvent::PayloadDecoded { payload }) =>
            if payload.expected_user_id != from_user_id {
            (ReplyStage::Finished { outcome: ReplyOutcome::ForeignUser }, ReplyAction::Stop)
        } else {
            (
                ReplyStage::Cancelling { captcha, user_id: from_user_id, allowed: payload.allowed },
                ReplyAction::CancelTimeout { watch: pending[from_user_id] },
            )
        },
        (
            ReplyStage::Cancelling { captcha, user_id, allowed },
            ReplyEvent::TimeoutCancelled { delivered },
        ) => if !delivered {
            (ReplyStage::Finished { outcome: ReplyOutcome::TimeoutAlreadyFired }, ReplyAction::Stop)
        } else {
            (
                ReplyStage::Deleting { captcha, user_id, allowed },
                ReplyAction::DeleteMessage { captcha },
            )
        },
        (ReplyStage::Deleting { captcha, user_id, allowed }, ReplyEvent::MessageDeleted) =>
            if !allowed {
            (
                ReplyStage::Finished { outcome: ReplyOutcome::Kicked },
                ReplyAction::KickUser { chat_id: captcha.chat_id, user_id },
            )
        } else {
            (
                ReplyStage::FetchingPermissions { chat_id: captcha.chat_id, user_id },
                ReplyAction::FetchPermissions { chat_id: captcha.chat_id },
            )
        },
        (
            ReplyStage::FetchingPermissions { chat_id, user_id },
            ReplyEvent::PermissionsFetched { permissions },
        ) => match permissions {
            None => (
                ReplyStage::Finished { outcome: ReplyOutcome::NoDefaultPermissions },
                ReplyAction::Stop,
            ),
            Some(permissions) => (
                ReplyStage::Finished { outcome: ReplyOutcome::Restored },
                ReplyAction::RestrictUser { chat_id, user_id, permissions },
            ),
        },
        _ => (stage, ReplyAction::Stop),
    }
}

/// Begins handling a callback query.
pub fn start_reply<W, P>(reply: CaptchaReply) -> (res: (ReplyStage, ReplyAction<W, P>))
    ensures
        res == reply_start_spec::<W, P>(reply),
{
    let CaptchaReply { from_user_id, data, message } = reply;
    match data {
        None => (ReplyStage::Finished { outcome: ReplyOutcome::EmptyData }, ReplyAction::Stop),
        Some(data) => match message {
            None => (
                ReplyStage::Finished { outcome: ReplyOutcome::EmptyMessage },
                ReplyAction::Stop,
            ),
            Some(captcha) => (
                ReplyStage::Decoding { captcha, from_user_id },
                ReplyAction::DecodePayload { data },
            ),
        },
    }
}

/// Takes the next step of handling a reply. When the decoded payload names
/// the presser, their captcha must be open: the bot crashes otherwise.
pub fn step_reply<W, P>(
    stage: ReplyStage,
    event: ReplyEvent<P>,
    pending: &mut PendingCaptchas<W>,
) -> (res: (ReplyStage, ReplyAction<W, P>))
    requires
        event_fits(stage, event),
        closes_captcha_of(stage, event) matches Some(user_id) ==> old(pending)@.contains_key(user_id),
    ensures
        res == reply_step_spec(stage, event, old(pending)@),
        final(pending)@ == pending_after_step(stage, event, old(pending)@),
        stage_rank(res.0) > stage_rank(stage),
{
    match stage {
        ReplyStage::Decoding { captcha, from_user_id } => match event {
            ReplyEvent::PayloadDecoded { payload } => {
                if payload.expected_user_id != from_user_id {
                    (ReplyStage::Finished { outcome: ReplyOutcome::ForeignUser }, ReplyAction::Stop)
                } else {
                    match pending.take(from_user_id) {
                        Some(watch) => (
                            ReplyStage::Cancelling {
                                captcha,
                                user_id: from_user_id,
                                allowed: payload.allowed,
                            },
                            ReplyAction::CancelTimeout { watch },
                        ),
                        None => unreached(),
                    }
                }
            },
            _ => unreached(),
        },
        ReplyStage::Cancelling { captcha, user_id, allowed } => match event {
            ReplyEvent::TimeoutCancelled { delivered } => {
                if !delivered {
                    (
                        ReplyStage::Finished { outcome: ReplyOutcome::TimeoutAlreadyFired },
                        ReplyAction::Stop,
                    )
                } else {
                    (
                        ReplyStage::Deleting { captcha, user_id, allowed },
                        ReplyAction::DeleteMessage { captcha },
                    )
                }
            },
            _ => unreached(),
        },
        ReplyStage::Deleting { captcha, user_id, allowed } => match event {
            ReplyEvent::MessageDeleted => {
                if !allowed {
                    (
                        ReplyStage::Finished { outcome: ReplyOutcome::Kicked },
                        ReplyAction::KickUser { chat_id: captcha.chat_id, user_id },
                    )
                } else {
                    (
                        ReplyStage::FetchingPermissions { chat_id: captcha.chat_id, user_id },
                        ReplyAction::FetchPermissions { chat_id: captcha.chat_id },
                    )
                }
            },
            _ => unreached(),
        },
        ReplyStage::FetchingPermissions { chat_id, user_id } => match event {
            ReplyEvent::PermissionsFetched { permissions } => match permissions {
                None => (
                    ReplyStage::Finished { outcome: ReplyOutcome::NoDefaultPermissions },
                    ReplyAction::Stop,
                ),
                Some(permissions) => (
                    ReplyStage::Finished { outcome: ReplyOutcome::Restored },
                    ReplyAction::RestrictUser { chat_id, user_id, permissions },
                ),
            },
            _ => unreached(),
        },
        ReplyStage::Finished { .. } => unreached(),
    }
}

/// A member who presses the wrong button of their own captcha, in time, gets
/// their time-limit watch stopped, the captcha message deleted and then a
/// ban from the chat of that message; their captcha is no longer open.
pub proof fn law_wrong_answer_bans_the_presser<W, P>(
    reply: CaptchaReply,
    payload: CaptchaReplyPayload,
    pending: Map<u64, W>,
)
    requires
        reply.data is Some,
        reply.message is Some,
        payload.expected_user_id == reply.from_user_id,
        !payload.allowed,
        pending.contains_key(reply.from_user_id),
    ensures
        ({
            let captcha = reply.message->0;
            let user_id = reply.from_user_id;
            let first = reply_start_spec::<W, P>(reply);
            let decoded = ReplyEvent::<P>::PayloadDecoded { payload };
            let second = reply_step_spec(first.0, decoded, pending);
            let left = pending_after_step(first.0, decoded, pending);
            let third = reply_step_spec(second.0, ReplyEvent::<P>::TimeoutCancelled { delivered: true }, left);
            let fourth = reply_step_spec(third.0, ReplyEvent::<P>::MessageDeleted, left);
            &&& second.1 == ReplyAction::<W, P>::CancelTimeout { watch: pending[user_id] }
            &&& left == pending.remove(user_id)
            &&& third.1 == ReplyAction::<W, P>::DeleteMessage { captcha }
            &&& fourth.1 == ReplyAction::<W, P>::KickUser { chat_id: captcha.chat_id, user_id }
            &&& fourth.0 == ReplyStage::Finished { outcome: ReplyOutcome::Kicked }
        }),
{
}

/// A member who presses the right button of their own captcha, in time, gets
/// their time-limit watch stopped, the captcha message deleted and then the
/// chat's default permissions back; their captcha is no longer open.
pub proof fn law_right_answer_restores_defaults<W, P>(
    reply: CaptchaReply,
    payload: CaptchaReplyPayload,
    pending: Map<u64, W>,
    defaults: P,
)
    requires
        reply.data is Some,
        reply.message is Some,
        payload.expected_user_id == reply.from_user_id,
        payload.allowed,
        pending.contains_key(reply.from_user_id),
    ensures
        ({
            let captcha = reply.message->0;
            let user_id = reply.from_user_id;
            let first = reply_start_spec::<W, P>(reply);
            let decoded = ReplyEvent::<P>::PayloadDecoded { payload };
            let second = reply_step_spec(first.0, decoded, pending);
            let left = pending_after_step(first.0, decoded, pending);
            let third = reply_step_spec(second.0, ReplyEvent::<P>::TimeoutCancelled { delivered: true }, left);
            let fourth = reply_step_spec(third.0, ReplyEvent::<P>::MessageDeleted, left);
            let fifth = reply_step_spec(
                fourth.0,
                ReplyEvent::<P>::PermissionsFetched { permissions: Some(defaults) },
                left,
            );
            &&& second.1 == ReplyAction::<W, P>::CancelTimeout { watch: pending[user_id] }
            &&& left == pending.remove(user_id)
            &&& third.1 == ReplyAction::<W, P>::DeleteMessage { captcha }
            &&& fourth.1 == ReplyAction::<W, P>::FetchPermissions { chat_id: captcha.chat_id }
            &&& fifth.1 == ReplyAction::<W, P>::RestrictUser {
                chat_id: captcha.chat_id,
                user_id,
                permissions: defaults,
            }
            &&& fifth.0 == ReplyStage::Finished { outcome: ReplyOutcome::Restored }
        }),
{
}

/// Pressing a button of a captcha meant for someone else ends the handling
/// with nothing done: no message deleted, nobody banned or let in, and every
/// open captcha stays open.
pub proof fn law_foreign_press_changes_nothing<W, P>(
    captcha: MessageRef,
    from_user_id: u64,
    payload: CaptchaReplyPayload,
    pending: Map<u64, W>,
)
    requires
        payload.expected_user_id != from_user_id,
    ensures
        ({
            let stage = ReplyStage::Decoding { captcha, from_user_id };
            let event = ReplyEvent::<P>::PayloadDecoded { payload };
            &&& reply_step_spec(stage, event, pending) == (
                ReplyStage::Finished { outcome: ReplyOutcome::ForeignUser },
                ReplyAction::<W, P>::Stop,
            )
            &&& pending_after_step(stage, event, pending) == pending
        }),
{
}

/// An answer that comes after the time limit ran out (the watch is already
/// gone) does nothing more: the ban under way is not undone or repeated.
pub proof fn law_late_answer_does_nothing<W, P>(
    captcha: MessageRef,
    user_id: u64,
    allowed: bool,
    pending: Map<u64, W>,
)
    ensures
        reply_step_spec(
            ReplyStage::Cancelling { captcha, user_id, allowed },
            ReplyEvent::<P>::TimeoutCancelled { delivered: false },
            pending,
        ) == (
            ReplyStage::Finished { outcome: ReplyOutcome::TimeoutAlreadyFired },
            ReplyAction::<W, P>::Stop,
        ),
{
}

/// A callback query that carries data and a message is always decoded
/// first, whatever the data: the first action hands over exactly the carried
/// data, and the handling waits for the presser's payload on that message.
/// A query without data, or with data but no message, is ignored at once.
pub proof fn law_start_decodes_carried_data<W, P>(reply: CaptchaReply)
    ensures
        reply.data is Some && reply.message is Some ==> reply_start_spec::<W, P>(reply) == (
            ReplyStage::Decoding { captcha: reply.message->0, from_user_id: reply.from_user_id },
            ReplyAction::<W, P>::DecodePayload { data: reply.data->0 },
        ),
        reply.data is None ==> reply_start_spec::<W, P>(reply) == (
            ReplyStage::Finished { outcome: ReplyOutcome::EmptyData },
            ReplyAction::<W, P>::Stop,
        ),
        reply.data is Some && reply.message is None ==> reply_start_spec::<W, P>(reply) == (
            ReplyStage::Finished { outcome: ReplyOutcome::EmptyMessage },
            ReplyAction::<W, P>::Stop,
        ),
{
}

/// A right answer in a chat without default member permissions ends after
/// the lookup with nothing given to the member.
pub proof fn law_no_defaults_gives_nothing<W, P>(chat_id: i64, user_id: u64, pending: Map<u64, W>)
    ensures
        reply_step_spec(
            ReplyStage::FetchingPermissions { chat_id, user_id },
            ReplyEvent::<P>::PermissionsFetched { permissions: None },
            pending,
        ) == (
            ReplyStage::Finished { outcome: ReplyOutcome::NoDefaultPermissions },
            ReplyAction::<W, P>::Stop,
        ),
{
}

} // verus!
