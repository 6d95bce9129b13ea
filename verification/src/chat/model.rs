//! The completion models a session can be configured with.

use vstd::prelude::*;
use vstd::string::StringExecFns;

verus! {

/// One completion model's configuration.
#[derive(Clone, Copy, Debug, PartialEq, Eq, Structural)]
pub struct ModelConfiguration {
    pub model: LanguageModel,
    pub max_token: u32,
}

/// The completion models the engine knows.
#[derive(Clone, Copy, Debug, PartialEq, Eq, Structural)]
pub enum LanguageModel {
    OpenAiGpt3Turbo,
    DeepSeekChat,
    DeepSeekCode,
}

pub open spec fn spec_default_model() -> ModelConfiguration {
    ModelConfiguration { model: LanguageModel::OpenAiGpt3Turbo, max_token: 2048 }
}

pub open spec fn spec_deepseek_chat() -> ModelConfiguration {
    ModelConfiguration { model: LanguageModel::DeepSeekChat, max_token: 2048 }
}

pub open spec fn spec_deepseek_code() -> ModelConfiguration {
    ModelConfiguration { model: LanguageModel::DeepSeekCode, max_token: 2048 }
}

pub open spec fn spec_openai() -> ModelConfiguration {
    ModelConfiguration { model: LanguageModel::OpenAiGpt3Turbo, max_token: 2048 }
}

/// The endpoint each model is served at.
pub open spec fn spec_api_url(m: ModelConfiguration) -> Seq<char> {
    match m.model {
        LanguageModel::OpenAiGpt3Turbo => "https://api.openai.com/v1/chat/completions"@,
        LanguageModel::DeepSeekChat => "https://api.deepseek.com/chat/completions"@,
        LanguageModel::DeepSeekCode => "https://api.deepseek.com/chat/completions"@,
    }
}

impl Default for ModelConfiguration {
    fn default() -> (r: Self)
        ensures
            r == spec_default_model(),
    {
        ModelConfiguration { model: LanguageModel::OpenAiGpt3Turbo, max_token: 2048 }
    }
}

impl ModelConfiguration {
    pub fn deepseek_chat() -> (r: ModelConfiguration)
        ensures
            r == spec_deepseek_chat(),
    {
        ModelConfiguration { model: LanguageModel::DeepSeekChat, max_token: 2048 }
    }

    pub fn deepseek_code() -> (r: ModelConfiguration)
        ensures
            r == spec_deepseek_code(),
    {
        ModelConfiguration { model: LanguageModel::DeepSeekCode, max_token: 2048 }
    }

    pub fn openai() -> (r: ModelConfiguration)
        ensures
            r == spec_openai(),
    {
        ModelConfiguration { model: LanguageModel::OpenAiGpt3Turbo, max_token: 2048 }
    }

    /// The endpoint this configuration posts to.
    pub fn api_url(&self) -> (r: String)
        ensures
            r@ == spec_api_url(*self),
    {
        match self.model {
            LanguageModel::OpenAiGpt3Turbo => "https://api.openai.com/v1/chat/completions".to_owned(),
            LanguageModel::DeepSeekChat => "https://api.deepseek.com/chat/completions".to_owned(),
            LanguageModel::DeepSeekCode => "https://api.deepseek.com/chat/completions".to_owned(),
        }
    }
}

} // verus!
