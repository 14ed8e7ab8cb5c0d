//! The table of open captchas over the bot's whole life.
//!
//! Only two flows change the table: a welcome opens the captcha of the
//! member it welcomes once the time-limit watch is armed (`step_newcomer`),
//! and a press closes the captcha of the presser once its payload, decoded,
//! names them (`step_reply`). The end of a wait for an answer
//! (`on_captcha_timeout`) decides without the table. `table_after` composes
//! the changes that these functions' contracts state, over any order of
//! welcomes, presses and ended waits.
use vstd::prelude::*;
use crate::captcha::{captcha_caption_text, CaptchaButton, CaptchaReplyPayload, MessageRef};
use crate::newcomer::{
    are_captcha_buttons, newcomer_pending_after, newcomer_step_spec, Newcomer, NewcomerAction,
    NewcomerEvent, NewcomerStage, TimeoutOutcome,
};
use crate::reply::{pending_after_step, reply_start_spec, CaptchaReply, ReplyEvent};

verus! {

/// Something that happens to the table of open captchas.
pub enum CaptchaEvent<W> {
    /// `newcomer` joined `chat_id` with the message `join_message_id` and was
    /// welcomed from the stage `start_newcomer` returns (holding `caption` and
    /// `buttons`) to the end: muted, shown the captcha as the message
    /// `message_id`, and watched with `watch`.
    Welcomed {
        chat_id: i64,
        join_message_id: i32,
        newcomer: Newcomer,
        caption: String,
        buttons: Vec<CaptchaButton>,
        message_id: i32,
        watch: W,
    },
    /// A press on a captcha button, handled from `start_reply` through the
    /// decoding of its payload (no later step touches the table).
    Pressed { reply: CaptchaReply, payload: CaptchaReplyPayload },
    /// The wait for `user_id`'s answer to `captcha` ended.
    WaitEnded { outcome: TimeoutOutcome, captcha: MessageRef, user_id: u64 },
}

/// The welcome started as `start_newcomer` starts it: the caption and the
/// buttons are the ones it prepares for the newcomer.
pub open spec fn started_as_welcome<W>(event: CaptchaEvent<W>) -> bool {
    match event {
        CaptchaEvent::Welcomed { newcomer, caption, buttons, .. } => caption@ == captcha_caption_text(
            newcomer.mention@,
        ) && are_captcha_buttons(buttons@, newcomer.user_id),
        _ => true,
    }
}

/// The stage `start_newcomer` returns for a welcome.
pub open spec fn welcome_first_stage(
    chat_id: i64,
    join_message_id: i32,
    newcomer: Newcomer,
    caption: String,
    buttons: Vec<CaptchaButton>,
) -> NewcomerStage {
    NewcomerStage::Muting { chat_id, join_message_id, user_id: newcomer.user_id, caption, buttons }
}

/// The actions of a welcome carried to its end, in order.
pub open spec fn welcome_actions<W>(
    chat_id: i64,
    join_message_id: i32,
    newcomer: Newcomer,
    caption: String,
    buttons: Vec<CaptchaButton>,
    message_id: i32,
    watch: W,
) -> Seq<NewcomerAction> {
    let s0 = welcome_first_stage(chat_id, join_message_id, newcomer, caption, buttons);
    let r1 = newcomer_step_spec(s0, NewcomerEvent::<W>::UserMuted);
    let r2 = newcomer_step_spec(r1.0, NewcomerEvent::<W>::CaptchaSent { message_id });
    let r3 = newcomer_step_spec(r2.0, NewcomerEvent::TimeoutArmed { watch });
    seq![NewcomerAction::MuteUser { chat_id, user_id: newcomer.user_id }, r1.1, r2.1, r3.1]
}

/// The table after a welcome carried to its end.
pub open spec fn table_after_welcome<W>(
    table: Map<u64, W>,
    chat_id: i64,
    join_message_id: i32,
    newcomer: Newcomer,
    caption: String,
    buttons: Vec<CaptchaButton>,
    message_id: i32,
    watch: W,
) -> Map<u64, W> {
    let s0 = welcome_first_stage(chat_id, join_message_id, newcomer, caption, buttons);
    let r1 = newcomer_step_spec(s0, NewcomerEvent::<W>::UserMuted);
    let r2 = newcomer_step_spec(r1.0, NewcomerEvent::<W>::CaptchaSent { message_id });
    let t1 = newcomer_pending_after(s0, NewcomerEvent::<W>::UserMuted, table);
    let t2 = newcomer_pending_after(r1.0, NewcomerEvent::<W>::CaptchaSent { message_id }, t1);
    newcomer_pending_after(r2.0, NewcomerEvent::TimeoutArmed { watch }, t2)
}

/// The table after one event.
pub open spec fn table_after_event<W>(table: Map<u64, W>, event: CaptchaEvent<W>) -> Map<u64, W> {
    match event {
        CaptchaEvent::Welcomed {
            chat_id,
            join_message_id,
            newcomer,
            caption,
            buttons,
            message_id,
            watch,
        } => table_after_welcome(
            table,
            chat_id,
            join_message_id,
            newcomer,
            caption,
            buttons,
            message_id,
            watch,
        ),
        CaptchaEvent::Pressed { reply, payload } => pending_after_step(
            reply_start_spec::<W, ()>(reply).0,
            ReplyEvent::<()>::PayloadDecoded { payload },
            table,
        ),
        CaptchaEvent::WaitEnded { .. } => table,
    }
}

/// The table after a sequence of events, starting from no open captcha (as
/// `PendingCaptchas::new` starts).
pub open spec fn table_after<W>(events: Seq<CaptchaEvent<W>>) -> Map<u64, W>
    decreases events.len(),
{
    if events.len() == 0 {
        Map::empty()
    } else {
        table_after_event(table_after(events.drop_last()), events.last())
    }
}

/// `events[i]` welcomed `user_id`: the member was first muted (every
/// permission taken) in the chat they joined, then shown the captcha
/// prepared for them, with its two buttons, as a reply to their join message.
pub open spec fn welcomed_at<W>(events: Seq<CaptchaEvent<W>>, i: int, user_id: u64) -> bool {
    &&& 0 <= i < events.len()
    &&& events[i] matches CaptchaEvent::Welcomed {
        chat_id,
        join_message_id,
        newcomer,
        caption,
        buttons,
        message_id,
        watch,
    }
    &&& newcomer.user_id == user_id
    &&& ({
        let actions = welcome_actions(
            chat_id,
            join_message_id,
            newcomer,
            caption,
            buttons,
            message_id,
            watch,
        );
        &&& actions[0] == NewcomerAction::MuteUser { chat_id, user_id }
        &&& actions[1] == NewcomerAction::SendCaptcha {
            chat_id,
            reply_to: join_message_id,
            caption,
            buttons,
        }
        &&& caption@ == captcha_caption_text(newcomer.mention@)
        &&& are_captcha_buttons(buttons@, user_id)
    })
}

/// What one event can do to the captcha of `user_id`.
proof fn lemma_event_effect<W>(table: Map<u64, W>, event: CaptchaEvent<W>, user_id: u64)
    ensures
        table_after_event(table, event).contains_key(user_id) && !table.contains_key(user_id)
            ==> (event matches CaptchaEvent::Welcomed { newcomer, .. } && newcomer.user_id == user_id),
        table.contains_key(user_id) && !table_after_event(table, event).contains_key(user_id)
            ==> (event matches CaptchaEvent::Pressed { reply, payload } && reply.from_user_id == user_id
            && payload.expected_user_id == user_id && reply.data is Some && reply.message is Some),
        event is WaitEnded ==> table_after_event(table, event) == table,
        (event matches CaptchaEvent::Welcomed { newcomer, watch, .. } ==> table_after_event(
            table,
            event,
        ) == table.insert(newcomer.user_id, watch)),
{
}

/// Every open captcha belongs to a member whom a welcome muted and then
/// showed the captcha prepared for them: a captcha is never open for anyone
/// else, whatever welcomes, presses and ended waits came before.
pub proof fn law_open_captcha_was_welcomed<W>(events: Seq<CaptchaEvent<W>>, user_id: u64)
    requires
        forall|i: int| 0 <= i < events.len() ==> started_as_welcome(#[trigger] events[i]),
    ensures
        table_after(events).contains_key(user_id) ==> exists|i: int| welcomed_at(events, i, user_id),
    decreases events.len(),
{
    if events.len() > 0 && table_after(events).contains_key(user_id) {
        let prefix = events.drop_last();
        let last = events.len() - 1;
        lemma_event_effect(table_after(prefix), events.last(), user_id);
        if table_after(prefix).contains_key(user_id) {
            assert forall|i: int| 0 <= i < prefix.len() implies started_as_welcome(
                #[trigger] prefix[i],
            ) by {
                assert(prefix[i] == events[i]);
            }
            law_open_captcha_was_welcomed(prefix, user_id);
            let i = choose|i: int| welcomed_at(prefix, i, user_id);
            assert(prefix[i] == events[i]);
            assert(welcomed_at(events, i, user_id));
        } else {
            assert(started_as_welcome(events[last]));
            assert(welcomed_at(events, last, user_id));
        }
    }
}

/// A captcha is opened only by a welcome of its member.
pub proof fn law_only_a_welcome_opens<W>(events: Seq<CaptchaEvent<W>>, event: CaptchaEvent<W>, user_id: u64)
    requires
        !table_after(events).contains_key(user_id),
        table_after(events.push(event)).contains_key(user_id),
    ensures
        event matches CaptchaEvent::Welcomed { newcomer, .. } && newcomer.user_id == user_id,
{
    assert(events.push(event).drop_last() =~= events);
    lemma_event_effect(table_after(events), event, user_id);
}

/// A captcha is closed only by a press of its own member whose payload
/// names that member; an ended wait, even one that bans the member, leaves
/// it open.
pub proof fn law_only_own_press_closes<W>(events: Seq<CaptchaEvent<W>>, event: CaptchaEvent<W>, user_id: u64)
    requires
        table_after(events).contains_key(user_id),
        !table_after(events.push(event)).contains_key(user_id),
    ensures
        event matches CaptchaEvent::Pressed { reply, payload } && reply.from_user_id == user_id
            && payload.expected_user_id == user_id && reply.data is Some && reply.message is Some,
{
    assert(events.push(event).drop_last() =~= events);
    lemma_event_effect(table_after(events), event, user_id);
}

/// The end of a wait for an answer never changes the table.
pub proof fn law_ended_wait_keeps_table<W>(
    events: Seq<CaptchaEvent<W>>,
    outcome: TimeoutOutcome,
    captcha: MessageRef,
    user_id: u64,
)
    ensures
        table_after(events.push(CaptchaEvent::WaitEnded { outcome, captcha, user_id })) == table_after(events),
{
    assert(events.push(CaptchaEvent::WaitEnded { outcome, captcha, user_id }).drop_last() =~= events);
}

} // verus!
