use veebot_telegram::captcha::{
    captcha_buttons, captcha_caption, kick_user_due_to_captcha, CaptchaReplyPayload, MessageRef,
    PendingCaptchas, CAPTCHA_TIMEOUT_SECS,
};
use veebot_telegram::newcomer::{
    combine_welcomes, on_captcha_timeout, start_newcomer, step_newcomer, Newcomer, NewcomerAction,
    NewcomerEvent, NewcomerStage, TimeoutAction, TimeoutOutcome,
};
use veebot_telegram::reply::{
    start_reply, step_reply, CaptchaReply, ReplyAction, ReplyEvent, ReplyOutcome, ReplyStage,
};

const CHAT: i64 = -1001;
const USER: u64 = 42;
const CAPTCHA: MessageRef = MessageRef { chat_id: CHAT, message_id: 77 };

fn expected_caption(mention: &str) -> String {
    format!(
        "{}{}{}{}",
        mention,
        "\nHi, new friend\\! Привет, поняша :3\n\nОтветь на капчу: ",
        "*Путин это кто?*",
        "\n\nУ тебя 1 минута на правильный ответ, иначе будешь кикнут\\."
    )
}

#[test]
fn caption_is_mention_greeting_question_and_notice() {
    let mention = "[Bob](tg://user?id=42)";
    assert_eq!(captcha_caption(mention), expected_caption(mention));
}

#[test]
fn buttons_offer_right_then_wrong_answer() {
    let buttons = captcha_buttons(USER);
    assert_eq!(buttons.len(), 2);
    assert_eq!(buttons[0].label, "Хуйло! 😉");
    assert_eq!(buttons[0].payload, CaptchaReplyPayload { expected_user_id: USER, allowed: true });
    assert_eq!(buttons[1].label, "Молодец (бан)! 🤨");
    assert_eq!(buttons[1].payload, CaptchaReplyPayload { expected_user_id: USER, allowed: false });
}

#[test]
fn ban_lasts_as_long_as_the_time_limit() {
    let order = kick_user_due_to_captcha(CHAT, USER, 1_700_000_000);
    assert_eq!(order.chat_id, CHAT);
    assert_eq!(order.user_id, USER);
    assert_eq!(order.until, 1_700_000_060);
    assert_eq!(CAPTCHA_TIMEOUT_SECS, 60);
}

/// Welcomes `user` to the end, so that their captcha is open with `watch`.
fn open_captcha<W>(pending: &mut PendingCaptchas<W>, user: u64, message_id: i32, watch: W) {
    let newcomer = Newcomer { user_id: user, mention: "@someone".to_string() };
    let (stage, _) = start_newcomer(CHAT, 5, newcomer);
    let (stage, _) = step_newcomer(stage, NewcomerEvent::UserMuted, pending);
    let (stage, _) = step_newcomer(stage, NewcomerEvent::CaptchaSent { message_id }, pending);
    step_newcomer(stage, NewcomerEvent::TimeoutArmed { watch }, pending);
}

/// Closes `user`'s captcha by their own press, handing back its watch.
fn close_by_own_press<W>(pending: &mut PendingCaptchas<W>, user: u64) -> Option<W> {
    let reply = CaptchaReply {
        from_user_id: user,
        data: Some("data".to_string()),
        message: Some(CAPTCHA),
    };
    let (stage, _) = start_reply::<W, u8>(reply);
    let payload = CaptchaReplyPayload { expected_user_id: user, allowed: true };
    match step_reply::<W, u8>(stage, ReplyEvent::PayloadDecoded { payload }, pending).1 {
        ReplyAction::CancelTimeout { watch } => Some(watch),
        _ => None,
    }
}

#[test]
fn pending_captchas_open_and_close() {
    let mut pending: PendingCaptchas<&str> = PendingCaptchas::new();
    assert!(!pending.is_pending(USER));
    open_captcha(&mut pending, USER, 77, "first");
    open_captcha(&mut pending, 7, 78, "other");
    assert!(pending.is_pending(USER));
    open_captcha(&mut pending, USER, 79, "second");
    assert_eq!(close_by_own_press(&mut pending, USER), Some("second"));
    assert!(!pending.is_pending(USER));
    assert!(pending.is_pending(7));
}

#[test]
fn closing_after_opening_gives_back_the_watch() {
    let mut pending: PendingCaptchas<u32> = PendingCaptchas::new();
    open_captcha(&mut pending, 5, 70, 50);
    open_captcha(&mut pending, USER, 71, 420);
    assert_eq!(close_by_own_press(&mut pending, USER), Some(420));
    assert_eq!(close_by_own_press(&mut pending, 5), Some(50));
}

#[test]
fn ended_wait_leaves_the_captcha_open() {
    let mut pending: PendingCaptchas<u32> = PendingCaptchas::new();
    open_captcha(&mut pending, USER, 77, 1);
    let action = on_captcha_timeout(TimeoutOutcome::Elapsed, CAPTCHA, USER);
    assert_eq!(action, TimeoutAction::DeleteAndKick { captcha: CAPTCHA, user_id: USER });
    assert!(pending.is_pending(USER));
}

fn press(from: u64, data: Option<&str>, message: Option<MessageRef>) -> CaptchaReply {
    CaptchaReply { from_user_id: from, data: data.map(|d| d.to_string()), message }
}

#[test]
fn query_without_data_is_ignored() {
    let (stage, action) = start_reply::<u8, u8>(press(USER, None, Some(CAPTCHA)));
    assert_eq!(stage, ReplyStage::Finished { outcome: ReplyOutcome::EmptyData });
    assert_eq!(action, ReplyAction::Stop);
    let (stage, _) = start_reply::<u8, u8>(press(USER, None, None));
    assert_eq!(stage, ReplyStage::Finished { outcome: ReplyOutcome::EmptyData });
}

#[test]
fn query_without_message_is_ignored() {
    let (stage, action) = start_reply::<u8, u8>(press(USER, Some("{}"), None));
    assert_eq!(stage, ReplyStage::Finished { outcome: ReplyOutcome::EmptyMessage });
    assert_eq!(action, ReplyAction::Stop);
}

#[test]
fn wrong_answer_bans_the_presser() {
    let mut pending: PendingCaptchas<&str> = PendingCaptchas::new();
    open_captcha(&mut pending, USER, 77, "watch");
    let (stage, action) = start_reply::<&str, u8>(press(USER, Some("data"), Some(CAPTCHA)));
    assert_eq!(stage, ReplyStage::Decoding { captcha: CAPTCHA, from_user_id: USER });
    assert_eq!(action, ReplyAction::DecodePayload { data: "data".to_string() });
    let payload = CaptchaReplyPayload { expected_user_id: USER, allowed: false };
    let (stage, action) = step_reply::<&str, u8>(stage, ReplyEvent::PayloadDecoded { payload }, &mut pending);
    assert_eq!(action, ReplyAction::CancelTimeout { watch: "watch" });
    assert!(!pending.is_pending(USER));
    let (stage, action) = step_reply::<&str, u8>(stage, ReplyEvent::TimeoutCancelled { delivered: true }, &mut pending);
    assert_eq!(action, ReplyAction::DeleteMessage { captcha: CAPTCHA });
    let (stage, action) = step_reply::<&str, u8>(stage, ReplyEvent::MessageDeleted, &mut pending);
    assert_eq!(action, ReplyAction::KickUser { chat_id: CHAT, user_id: USER });
    assert_eq!(stage, ReplyStage::Finished { outcome: ReplyOutcome::Kicked });
}

#[test]
fn right_answer_restores_default_permissions() {
    let mut pending: PendingCaptchas<&str> = PendingCaptchas::new();
    open_captcha(&mut pending, USER, 77, "watch");
    let (stage, _) = start_reply::<&str, &str>(press(USER, Some("data"), Some(CAPTCHA)));
    let payload = CaptchaReplyPayload { expected_user_id: USER, allowed: true };
    let (stage, _) = step_reply::<&str, &str>(stage, ReplyEvent::PayloadDecoded { payload }, &mut pending);
    let (stage, _) = step_reply::<&str, &str>(stage, ReplyEvent::TimeoutCancelled { delivered: true }, &mut pending);
    let (stage, action) = step_reply::<&str, &str>(stage, ReplyEvent::MessageDeleted, &mut pending);
    assert_eq!(action, ReplyAction::FetchPermissions { chat_id: CHAT });
    let (stage, action) =
        step_reply::<&str, &str>(stage, ReplyEvent::PermissionsFetched { permissions: Some("defaults") }, &mut pending);
    assert_eq!(action, ReplyAction::RestrictUser { chat_id: CHAT, user_id: USER, permissions: "defaults" });
    assert_eq!(stage, ReplyStage::Finished { outcome: ReplyOutcome::Restored });
}

#[test]
fn right_answer_without_default_permissions_stops() {
    let mut pending: PendingCaptchas<&str> = PendingCaptchas::new();
    let stage = ReplyStage::FetchingPermissions { chat_id: CHAT, user_id: USER };
    let (stage, action) = step_reply::<&str, &str>(stage, ReplyEvent::PermissionsFetched { permissions: None }, &mut pending);
    assert_eq!(stage, ReplyStage::Finished { outcome: ReplyOutcome::NoDefaultPermissions });
    assert_eq!(action, ReplyAction::Stop);
}

#[test]
fn foreign_press_changes_nothing() {
    let mut pending: PendingCaptchas<&str> = PendingCaptchas::new();
    open_captcha(&mut pending, USER, 77, "watch");
    let (stage, _) = start_reply::<&str, u8>(press(9, Some("data"), Some(CAPTCHA)));
    let payload = CaptchaReplyPayload { expected_user_id: USER, allowed: true };
    let (stage, action) = step_reply::<&str, u8>(stage, ReplyEvent::PayloadDecoded { payload }, &mut pending);
    assert_eq!(stage, ReplyStage::Finished { outcome: ReplyOutcome::ForeignUser });
    assert_eq!(action, ReplyAction::Stop);
    assert_eq!(close_by_own_press(&mut pending, USER), Some("watch"));
}

#[test]
fn late_answer_does_nothing() {
    let mut pending: PendingCaptchas<u8> = PendingCaptchas::new();
    let stage = ReplyStage::Cancelling { captcha: CAPTCHA, user_id: USER, allowed: false };
    let (stage, action) = step_reply::<u8, u8>(stage, ReplyEvent::TimeoutCancelled { delivered: false }, &mut pending);
    assert_eq!(stage, ReplyStage::Finished { outcome: ReplyOutcome::TimeoutAlreadyFired });
    assert_eq!(action, ReplyAction::Stop);
}

#[test]
fn welcome_mutes_posts_then_watches() {
    let mut pending: PendingCaptchas<&str> = PendingCaptchas::new();
    let mention = "@bob";
    let newcomer = Newcomer { user_id: USER, mention: mention.to_string() };
    let (stage, action) = start_newcomer(CHAT, 5, newcomer);
    assert_eq!(action, NewcomerAction::MuteUser { chat_id: CHAT, user_id: USER });
    let (stage, action) = step_newcomer(stage, NewcomerEvent::UserMuted, &mut pending);
    assert_eq!(
        action,
        NewcomerAction::SendCaptcha {
            chat_id: CHAT,
            reply_to: 5,
            caption: expected_caption(mention),
            buttons: captcha_buttons(USER),
        }
    );
    let (stage, action) = step_newcomer(stage, NewcomerEvent::CaptchaSent { message_id: 77 }, &mut pending);
    assert_eq!(action, NewcomerAction::ArmTimeout { captcha: CAPTCHA, user_id: USER });
    assert!(!pending.is_pending(USER));
    let (stage, action) = step_newcomer(stage, NewcomerEvent::TimeoutArmed { watch: "w" }, &mut pending);
    assert_eq!(action, NewcomerAction::Done);
    assert_eq!(stage, NewcomerStage::Watched);
    assert_eq!(close_by_own_press(&mut pending, USER), Some("w"));
}

#[test]
fn welcomed_member_answering_stops_their_own_watch() {
    let mut pending: PendingCaptchas<&str> = PendingCaptchas::new();
    let (stage, _) = start_newcomer(CHAT, 5, Newcomer { user_id: USER, mention: "@bob".to_string() });
    let (stage, _) = step_newcomer(stage, NewcomerEvent::UserMuted, &mut pending);
    let (stage, _) = step_newcomer(stage, NewcomerEvent::CaptchaSent { message_id: 77 }, &mut pending);
    step_newcomer(stage, NewcomerEvent::TimeoutArmed { watch: "w" }, &mut pending);
    let payload = captcha_buttons(USER)[0].payload;
    let (stage, _) = start_reply::<&str, u8>(press(USER, Some("data"), Some(CAPTCHA)));
    let (_, action) = step_reply::<&str, u8>(stage, ReplyEvent::PayloadDecoded { payload }, &mut pending);
    assert_eq!(action, ReplyAction::CancelTimeout { watch: "w" });
    assert!(!pending.is_pending(USER));
}

#[test]
fn timeout_outcomes() {
    assert_eq!(on_captcha_timeout(TimeoutOutcome::Answered, CAPTCHA, USER), TimeoutAction::Nothing);
    assert_eq!(on_captcha_timeout(TimeoutOutcome::WatchDropped, CAPTCHA, USER), TimeoutAction::ReportDroppedWatch);
    assert_eq!(
        on_captcha_timeout(TimeoutOutcome::Elapsed, CAPTCHA, USER),
        TimeoutAction::DeleteAndKick { captcha: CAPTCHA, user_id: USER }
    );
}

#[test]
fn combined_welcomes_report_the_first_failure() {
    assert_eq!(combine_welcomes::<u8>(vec![]), Ok(()));
    assert_eq!(combine_welcomes::<u8>(vec![Ok(()), Ok(())]), Ok(()));
    assert_eq!(combine_welcomes(vec![Ok(()), Err(1u8), Ok(()), Err(2u8)]), Err(1));
    assert_eq!(combine_welcomes(vec![Err(3u8)]), Err(3));
}
