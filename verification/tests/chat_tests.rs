use qbot::chat::gpt::{Choices, GptRecvResult, Message as RespMessage, Usage};
use qbot::chat::manager::ChatManager;
use qbot::chat::message::MessageRole;
use qbot::chat::model::{LanguageModel, ModelConfiguration};
use qbot::chat::session::{Session, SessionError, Status};
use qbot::config::{default_config, AuthToken};
use qbot::qbot_cmd::CommandChatMode;

fn reply(content: &str) -> GptRecvResult {
    GptRecvResult {
        id: "chatcmpl-1".to_string(),
        object: "chat.completion".to_string(),
        created: 1678331835,
        model: "deepseek-chat".to_string(),
        choices: vec![Choices {
            message: RespMessage { role: MessageRole::Assistant, content: content.to_string() },
        }],
        usage: Usage { prompt_tokens: 1, completion_tokens: 2, total_tokens: 3 },
    }
}

fn empty_reply() -> GptRecvResult {
    GptRecvResult {
        id: "chatcmpl-2".to_string(),
        object: "chat.completion".to_string(),
        created: 1678331835,
        model: "deepseek-chat".to_string(),
        choices: vec![],
        usage: Usage { prompt_tokens: 1, completion_tokens: 0, total_tokens: 1 },
    }
}

#[test]
fn session_status_machine() {
    let mut s = Session::new(42, ModelConfiguration::deepseek_chat());
    assert_eq!(s.status(), Status::Replied);
    assert_eq!(s.messages().len(), 1);
    assert_eq!(s.messages()[0].role, MessageRole::System);

    assert!(s.new_user_message("hi".to_string()).is_ok());
    assert_eq!(s.status(), Status::Replying);
    // a second turn while one is outstanding is refused
    let e = s.new_user_message("again".to_string());
    assert_eq!(e, Err(SessionError::StatusInvalid));
    assert_eq!(SessionError::StatusInvalid.message(), "status invalid.");

    let content = s.recv_message(reply("hello!"));
    assert_eq!(content, "hello!");
    assert_eq!(s.status(), Status::Replied);
    assert_eq!(s.messages().len(), 3);
    assert_eq!(s.messages()[2].role, MessageRole::Assistant);
    assert_eq!(s.messages()[2].content, "hello!");
}

#[test]
fn empty_reply_is_reported() {
    let mut s = Session::new(42, ModelConfiguration::openai());
    assert!(s.new_user_message("hi".to_string()).is_ok());
    let content = s.recv_message(empty_reply());
    assert_eq!(content, "gpt return no choices");
    assert_eq!(s.status(), Status::Replied);
}

#[test]
fn clear_reseeds_and_set_mode_switches() {
    let mut s = Session::new(42, ModelConfiguration::deepseek_chat());
    assert!(s.new_user_message("hi".to_string()).is_ok());
    s.clear_message();
    // a cleared session is reseeded under its current role, not left empty
    assert_eq!(s.messages().len(), 1);
    assert_eq!(s.messages()[0].role, MessageRole::System);
    assert_eq!(s.status(), Status::Replied);
    assert!(s.new_user_message("again".to_string()).is_ok());
    s.set_mode(ModelConfiguration::deepseek_code());
    assert_eq!(s.model_config().model, LanguageModel::DeepSeekCode);
}

#[test]
fn rollback_releases_a_failed_turn() {
    let mut s = Session::new(42, ModelConfiguration::deepseek_chat());
    assert!(s.new_user_message("hi".to_string()).is_ok());
    let before = s.messages().len();
    // the remote call failed: the pending turn is dropped, the session idles
    s.rollback_message();
    assert_eq!(s.messages().len(), before - 1);
    assert_eq!(s.status(), Status::Replied);
    // the retry is admitted: the session is never wedged awaiting a reply
    assert!(s.new_user_message("hi".to_string()).is_ok());
}

#[test]
fn manager_creates_sessions_lazily() {
    let mut m = ChatManager::new();
    assert!(m.messages(42).is_none());
    assert!(m.new_user_message(42, "hi".to_string(), ModelConfiguration::deepseek_chat()).is_ok());
    assert_eq!(m.messages(42).unwrap().len(), 2);
    // busy session refuses the next turn
    assert_eq!(
        m.new_user_message(42, "again".to_string(), ModelConfiguration::deepseek_chat()),
        Err(SessionError::StatusInvalid)
    );
    let content = m.recv_message(42, reply("sure")).unwrap();
    assert_eq!(content, "sure");
    assert_eq!(m.messages(42).unwrap().len(), 3);
    assert!(m.recv_message(7, reply("nobody")).is_none());

    m.clear(42);
    assert_eq!(m.messages(42).unwrap().len(), 1);
    assert_eq!(m.messages(42).unwrap()[0].role, MessageRole::System);
    m.set_mode(42, ModelConfiguration::deepseek_code());
    assert_eq!(m.model_config(42).unwrap().model, LanguageModel::DeepSeekCode);
    // clearing or re-moding an unknown user does nothing
    m.clear(7);
    m.set_mode(7, ModelConfiguration::openai());
    assert!(m.messages(7).is_none());
}

#[test]
fn manager_rolls_back_failed_turns() {
    let mut m = ChatManager::new();
    assert!(m.new_user_message(42, "hi".to_string(), ModelConfiguration::deepseek_chat()).is_ok());
    m.rollback_message(42);
    assert_eq!(m.messages(42).unwrap().len(), 1);
    // the retry is admitted
    assert!(m.new_user_message(42, "hi".to_string(), ModelConfiguration::deepseek_chat()).is_ok());
    // rolling back an unknown user does nothing
    m.rollback_message(7);
    assert!(m.messages(7).is_none());
}

#[test]
fn model_configurations() {
    assert_eq!(ModelConfiguration::deepseek_chat().model, LanguageModel::DeepSeekChat);
    assert_eq!(ModelConfiguration::deepseek_code().model, LanguageModel::DeepSeekCode);
    assert_eq!(ModelConfiguration::openai().model, LanguageModel::OpenAiGpt3Turbo);
    assert_eq!(ModelConfiguration::default().model, LanguageModel::OpenAiGpt3Turbo);
    assert_eq!(ModelConfiguration::default().max_token, 2048);
    assert_eq!(
        ModelConfiguration::openai().api_url(),
        "https://api.openai.com/v1/chat/completions"
    );
    assert_eq!(
        ModelConfiguration::deepseek_chat().api_url(),
        "https://api.deepseek.com/chat/completions"
    );
    assert_eq!(
        ModelConfiguration::deepseek_code().api_url(),
        "https://api.deepseek.com/chat/completions"
    );
}

#[test]
fn chat_modes_select_models() {
    assert_eq!(CommandChatMode::Chat.model_configuration().model, LanguageModel::DeepSeekChat);
    assert_eq!(CommandChatMode::Code.model_configuration().model, LanguageModel::DeepSeekCode);
}

#[test]
fn config_values() {
    let c = default_config();
    assert!(c.starts_with("---\ncq_bot:\n"));
    assert!(c.contains("root_qq: 456"));
    assert_eq!(AuthToken::DeepSeek("tok".to_string()).token(), "tok");
    assert_eq!(AuthToken::OpenAi("tok2".to_string()).token(), "tok2");
}
