//! The structured command set of the newer bot front end. The front end's
//! argument parsing produces these plain values.

use vstd::prelude::*;
use crate::chat::model::ModelConfiguration;

verus! {

/// A parsed top-level command.
#[derive(Debug)]
pub struct QBotCmd {
    pub sub: Option<Commands>,
}

/// The subcommands of the bot.
#[derive(Debug)]
pub enum Commands {
    Chat(ChatCommand),
    Nps { ip: String },
}

/// The chat-related subcommands.
#[derive(Clone, Copy, Debug, PartialEq, Eq, Structural)]
pub enum ChatCommand {
    Clear,
    Mode { mode: CommandChatMode },
    Info,
}

/// The chat mode a user can switch a session to.
#[derive(Clone, Copy, Debug, PartialEq, Eq, Structural)]
pub enum CommandChatMode {
    Chat,
    Code,
}

impl CommandChatMode {
    /// The model configuration a chat mode selects.
    pub fn model_configuration(&self) -> (r: ModelConfiguration)
        ensures
            r == (match *self {
                CommandChatMode::Chat => crate::chat::model::spec_deepseek_chat(),
                CommandChatMode::Code => crate::chat::model::spec_deepseek_code(),
            }),
    {
        match self {
            CommandChatMode::Chat => ModelConfiguration::deepseek_chat(),
            CommandChatMode::Code => ModelConfiguration::deepseek_code(),
        }
    }
}

} // verus!
