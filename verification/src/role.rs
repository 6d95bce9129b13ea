//! The fixed table of personas and their seed messages.

use vstd::prelude::*;
use crate::gpt::{assist_msg, sys_msg, user_msg, GPTMessageView, GPTMessages};
use crate::text::str_eq;

verus! {

/// The system message of the default assistant persona.
pub const ASSISTANT_SYSTEM_INFO: &'static str = "You are a helpful assistant. Unless there is a specific word count requirement, please answer the question as concisely as possible";

/// The system message of the storyteller persona.
pub const STORYTELLER_SYSTEM_INFO: &'static str = "I want you to act as a storyteller. You will come up with entertaining stories that are engaging, imaginative and captivating for the audience. It can be fairy tales, educational stories or any other type of stories which has the potential to capture people's attention and imagination. Depending on the target audience, you may choose specific themes or topics for your storytelling session e.g., if it\u{2019}s children then you can talk about animals; If it\u{2019}s adults then history-based tales might engage them better etc. ";

/// The system message of the fairy-tale-assistant persona.
pub const TALER_SYSTEM_INFO: &'static str = "I need you to act as an assistant to a fairy tale writer and help the writer write fairy tales for given keywords. The language must be familiar and easy to understand, the logic of the story must be smooth, the content of the story must be imaginative and interesting, and have certain educational significance .";

/// The system message of the food-critic persona.
pub const FOODCRITIC_SYSTEM_INFO: &'static str = "\u{4f60}\u{662f}\u{7f8e}\u{98df}\u{8bc4}\u{8bba}\u{5458}\u{ff0c}\u{5e2e}\u{52a9}\u{7f16}\u{5199}\u{7f8e}\u{98df}\u{7684}\u{8bc4}\u{8bba}\u{6587}\u{7ae0}\u{3002}";

/// The user seed message of the food-critic persona.
pub const FOODCRITIC_USER_INFO: &'static str = "\u{63a5}\u{4e0b}\u{6765}\u{6211}\u{4f1a}\u{7ed9}\u{4f60}\u{5e97}\u{540d}\u{548c}\u{98df}\u{7269}\u{7684}\u{540d}\u{79f0}\u{ff0c}\u{751f}\u{5b58}\u{4e00}\u{7bc7}300\u{5b57}\u{7684}\u{8bc4}\u{8bba}\u{ff0c}\u{4e14}\u{6ce8}\u{610f}\u{8bc4}\u{8bba}\u{98df}\u{7269}\u{7684}\u{53e5}\u{5b50}\u{8981}\u{7b80}\u{5355}\u{4f46}\u{8bed}\u{6c14}\u{5938}\u{5f20}\u{ff0c}\u{4e0d}\u{8981}\u{7528}\u{91cd}\u{590d}\u{7684}\u{8bdd}\u{ff0c}\u{6bcf}\u{884c}\u{4e0d}\u{8d85}\u{8fc7}30\u{4e2a}\u{5b57}\u{ff0c}\u{6362}\u{884c}\u{8981}\u{6362}\u{4e24}\u{6b21}\u{ff0c}\u{5728}\u{6bcf}\u{884c}\u{7684}\u{6700}\u{524d}\u{9762}\u{52a0}\u{4e0a}\u{51e0}\u{4e2a}\u{4e0d}\u{4e00}\u{6837}\u{7684}emoji\u{3002}";

/// The assistant seed message, and the description, of the food-critic
/// persona.
pub const FOODCRITIC_ASSIST_INFO: &'static str = "\u{597d}\u{7684}\u{ff0c}\u{8bf7}\u{544a}\u{8bc9}\u{6211}\u{5e97}\u{540d}\u{548c}\u{98df}\u{7269}\u{540d}\u{79f0}\u{3002}";

/// The personas a conversation context can take.
#[derive(Clone, Copy, Debug, PartialEq, Eq, Structural)]
pub enum BotRole {
    Assistant,
    Taler,
    StoryTeller,
    FoodCritic,
}

/// The persona a role name denotes; anything unrecognized falls back to the
/// base assistant.
pub open spec fn spec_role_from_str(s: Seq<char>) -> BotRole {
    if s == "assistant"@ || s == "Assistant"@ || s == "default"@ || s == "Default"@ {
        BotRole::Assistant
    } else if s == "taler"@ {
        BotRole::Taler
    } else if s == "storyteller"@ {
        BotRole::StoryTeller
    } else if s == "foodcritic"@ {
        BotRole::FoodCritic
    } else {
        BotRole::Assistant
    }
}

/// The one-line acknowledgement a role switch answers with.
pub open spec fn spec_description(role: BotRole) -> Seq<char> {
    match role {
        BotRole::Assistant => "I am now a Assistant, I will answer the question as concisely as possible unless work count specified"@,
        BotRole::Taler => "I am now a fairy tale writer, I will help you write stories."@,
        BotRole::StoryTeller => "I am now a story teller, I will help you wirte stories."@,
        BotRole::FoodCritic => FOODCRITIC_ASSIST_INFO@,
    }
}

/// The seed messages that open every history held under a role.
pub open spec fn spec_role_seed(role: BotRole) -> Seq<GPTMessageView> {
    match role {
        BotRole::Assistant => seq![sys_msg(ASSISTANT_SYSTEM_INFO@)],
        BotRole::Taler => seq![sys_msg(TALER_SYSTEM_INFO@)],
        BotRole::StoryTeller => seq![sys_msg(STORYTELLER_SYSTEM_INFO@)],
        BotRole::FoodCritic => seq![
            sys_msg(FOODCRITIC_SYSTEM_INFO@),
            user_msg(FOODCRITIC_USER_INFO@),
            assist_msg(FOODCRITIC_ASSIST_INFO@),
        ],
    }
}

impl BotRole {
    pub fn new_from_str(ins: &str) -> (r: Self)
        ensures
            r == spec_role_from_str(ins@),
    {
        if str_eq(ins, "assistant") || str_eq(ins, "Assistant") || str_eq(ins, "default") || str_eq(
            ins,
            "Default",
        ) {
            BotRole::Assistant
        } else if str_eq(ins, "taler") {
            BotRole::Taler
        } else if str_eq(ins, "storyteller") {
            BotRole::StoryTeller
        } else if str_eq(ins, "foodcritic") {
            BotRole::FoodCritic
        } else {
            BotRole::Assistant
        }
    }

    pub fn description(&self) -> (r: &'static str)
        ensures
            r@ == spec_description(*self),
    {
        match self {
            BotRole::Assistant => "I am now a Assistant, I will answer the question as concisely as possible unless work count specified",
            BotRole::Taler => "I am now a fairy tale writer, I will help you write stories.",
            BotRole::StoryTeller => "I am now a story teller, I will help you wirte stories.",
            BotRole::FoodCritic => FOODCRITIC_ASSIST_INFO,
        }
    }

    /// The seed messages of this role, in order, freshly built.
    pub fn system_infomation(&self) -> (r: Vec<GPTMessages>)
        ensures
            crate::gpt::msgs_view(r@) == spec_role_seed(*self),
    {
        let msgs: Vec<GPTMessages> = match self {
            BotRole::Assistant => vec![
                GPTMessages::new_system_message(ASSISTANT_SYSTEM_INFO.to_owned()),
            ],
            BotRole::Taler => vec![GPTMessages::new_system_message(TALER_SYSTEM_INFO.to_owned())],
            BotRole::StoryTeller => vec![
                GPTMessages::new_system_message(STORYTELLER_SYSTEM_INFO.to_owned()),
            ],
            BotRole::FoodCritic => vec![
                GPTMessages::new_system_message(FOODCRITIC_SYSTEM_INFO.to_owned()),
                GPTMessages::new_user_message(FOODCRITIC_USER_INFO.to_owned()),
                GPTMessages::new_assist_message(FOODCRITIC_ASSIST_INFO.to_owned()),
            ],
        };
        proof {
            assert(crate::gpt::msgs_view(msgs@) =~= spec_role_seed(*self));
        }
        msgs
    }
}

} // verus!
