//! The commands that any chat member may send to the bot.
use vstd::prelude::*;
use crate::markdown::{escape, escaped};

verus! {

/// A regular command.
#[derive(Clone, Debug, PartialEq, Eq)]
pub enum Cmd {
    /// Show the list of commands.
    Help,
    /// Generate audio with 15.ai: `<character>,<text>`.
    Ftai(String),
}

/// What answering a command takes.
#[derive(Debug, PartialEq, Eq)]
pub enum CmdAction {
    /// Reply to the command with this MarkdownV2 text.
    ReplyHelp { text: String, disable_web_page_preview: bool },
    /// Parse this request for 15.ai and carry it out.
    RunFtai { request: String },
}

impl Cmd {
    /// Decides how to answer the command. `descriptions` is the list of
    /// commands as plain text: for `Help` it is sent back escaped, with web
    /// page previews left on.
    pub fn handle(self, descriptions: &str) -> (action: CmdAction)
        ensures
            match self {
                Cmd::Help => action matches CmdAction::ReplyHelp { text, disable_web_page_preview }
                    && text@ == escaped(descriptions@) && !disable_web_page_preview,
                Cmd::Ftai(request) => action == (CmdAction::RunFtai { request }),
            },
    {
        match self {
            Cmd::Help => CmdAction::ReplyHelp {
                text: escape(descriptions),
                disable_web_page_preview: false,
            },
            Cmd::Ftai(request) => CmdAction::RunFtai { request },
        }
    }
}

} // verus!
