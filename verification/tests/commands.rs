use veebot_telegram::cmd::{Cmd, CmdAction};

#[test]
fn help_escapes_the_descriptions() {
    let action = Cmd::Help.handle("/help — show_this text.");
    assert_eq!(
        action,
        CmdAction::ReplyHelp {
            text: String::from("/help — show\\_this text\\."),
            disable_web_page_preview: false,
        }
    );
}

#[test]
fn help_escapes_every_reserved_character() {
    let action = Cmd::Help.handle("_*[]()~`>#+-=|{}.!a\\");
    assert_eq!(
        action,
        CmdAction::ReplyHelp {
            text: String::from("\\_\\*\\[\\]\\(\\)\\~\\`\\>\\#\\+\\-\\=\\|\\{\\}\\.\\!a\\"),
            disable_web_page_preview: false,
        }
    );
}

#[test]
fn ftai_request_is_passed_on() {
    let action = Cmd::Ftai(String::from("Twilight Sparkle,Hello")).handle("ignored");
    assert_eq!(action, CmdAction::RunFtai { request: String::from("Twilight Sparkle,Hello") });
}
