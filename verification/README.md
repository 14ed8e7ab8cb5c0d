# veebot_telegram

The verified core of a Telegram moderation bot.

- `src/captcha.rs`: the captcha's caption and buttons, the ban given for a
  failed captcha, and the table of members whose captcha is open.
- `src/newcomer.rs`: welcoming a member who joined (mute, post the captcha,
  watch the time limit) and what happens when the limit is reached.
- `src/reply.rs`: handling a press on a captcha button.
- `src/table.rs`: the table of open captchas over any sequence of welcomes,
  presses and ended waits.
- `src/cmd.rs`: the regular commands.
- `src/error.rs`, `src/text.rs`: the bot's errors and their messages.
- `src/markdown.rs`: MarkdownV2 escaping.
- `src/std_ext.rs`: unwrapping where absence is fatal.

The flows decide; `app/` carries out their actions against the Bot API,
runs the timers and turns the button payloads into JSON and back.
