use qbot::command::{parse_instructions, parse_root_instructions, Opcode, RootOpcode};
use qbot::role::BotRole;

#[test]
fn user_verbs_parse() {
    assert_eq!(parse_instructions("clean"), Opcode::Clean);
    assert_eq!(parse_instructions("Clean"), Opcode::Clean);
    assert_eq!(parse_instructions("reset"), Opcode::Reset);
    assert_eq!(parse_instructions("Reset"), Opcode::Reset);
    assert_eq!(parse_instructions("help"), Opcode::Help);
    assert_eq!(parse_instructions("Help"), Opcode::Help);
}

#[test]
fn role_command_selects_persona() {
    assert_eq!(parse_instructions("role storyteller"), Opcode::Role(BotRole::StoryTeller));
    assert_eq!(parse_instructions("role taler"), Opcode::Role(BotRole::Taler));
    assert_eq!(parse_instructions("role foodcritic"), Opcode::Role(BotRole::FoodCritic));
    assert_eq!(parse_instructions("role assistant"), Opcode::Role(BotRole::Assistant));
    assert_eq!(parse_instructions("Role default"), Opcode::Role(BotRole::Assistant));
    // no name, or an unrecognized one, falls back to the assistant
    assert_eq!(parse_instructions("role"), Opcode::Role(BotRole::Assistant));
    assert_eq!(parse_instructions("role clippy"), Opcode::Role(BotRole::Assistant));
}

#[test]
fn unrecognized_user_input_is_invalid() {
    assert_eq!(parse_instructions(""), Opcode::Invalid);
    assert_eq!(parse_instructions("   "), Opcode::Invalid);
    assert_eq!(parse_instructions("bogus"), Opcode::Invalid);
    assert_eq!(parse_instructions("cleanx"), Opcode::Invalid);
    assert_eq!(parse_instructions("deny 5"), Opcode::Invalid);
}

#[test]
fn verbs_match_in_any_case() {
    assert_eq!(parse_instructions("CLEAN"), Opcode::Clean);
    assert_eq!(parse_instructions("rEsEt"), Opcode::Reset);
    assert_eq!(parse_instructions("HELP"), Opcode::Help);
    assert_eq!(parse_instructions("ROLE taler"), Opcode::Role(BotRole::Taler));
    assert_eq!(parse_root_instructions("DENY 5"), RootOpcode::Deny(5));
    assert_eq!(parse_root_instructions("aLLow 5"), RootOpcode::Allow(5));
    assert_eq!(parse_root_instructions("RESET"), RootOpcode::ResetAll);
    // role names keep their own fixed spellings
    assert_eq!(parse_instructions("role STORYTELLER"), Opcode::Role(BotRole::Assistant));
}

#[test]
fn whitespace_tokenizing_is_forgiving() {
    assert_eq!(parse_instructions("  clean  "), Opcode::Clean);
    assert_eq!(parse_instructions("\trole\t\tstoryteller\t"), Opcode::Role(BotRole::StoryTeller));
    // any Unicode whitespace separates tokens, as the original's tokenizer did
    assert_eq!(parse_instructions("\u{3000}clean\u{3000}"), Opcode::Clean);
    assert_eq!(parse_instructions("role\u{a0}taler"), Opcode::Role(BotRole::Taler));
    assert_eq!(parse_root_instructions("deny\u{3000}123"), RootOpcode::Deny(123));
}

#[test]
fn root_verbs_parse() {
    assert_eq!(parse_root_instructions(" deny 123"), RootOpcode::Deny(123));
    assert_eq!(parse_root_instructions(" Allow 7 "), RootOpcode::Allow(7));
    assert_eq!(parse_root_instructions(" reset 9"), RootOpcode::Reset(9));
    assert_eq!(parse_root_instructions(" reset"), RootOpcode::ResetAll);
    assert_eq!(parse_root_instructions(" Reset"), RootOpcode::ResetAll);
}

#[test]
fn root_numeric_arguments_are_checked() {
    assert_eq!(parse_root_instructions(" deny"), RootOpcode::Invalid);
    assert_eq!(parse_root_instructions(" deny abc"), RootOpcode::Invalid);
    assert_eq!(parse_root_instructions(" deny -5"), RootOpcode::Invalid);
    assert_eq!(parse_root_instructions(" deny +5"), RootOpcode::Deny(5));
    assert_eq!(
        parse_root_instructions(" deny 18446744073709551615"),
        RootOpcode::Deny(u64::MAX)
    );
    // one past the top of the range no longer parses
    assert_eq!(parse_root_instructions(" deny 18446744073709551616"), RootOpcode::Invalid);
    assert_eq!(parse_root_instructions(" sudo deny 5"), RootOpcode::Invalid);
    assert_eq!(parse_root_instructions(""), RootOpcode::Invalid);
}

#[test]
fn role_names_resolve() {
    assert_eq!(BotRole::new_from_str("assistant"), BotRole::Assistant);
    assert_eq!(BotRole::new_from_str("Assistant"), BotRole::Assistant);
    assert_eq!(BotRole::new_from_str("default"), BotRole::Assistant);
    assert_eq!(BotRole::new_from_str("Default"), BotRole::Assistant);
    assert_eq!(BotRole::new_from_str("taler"), BotRole::Taler);
    assert_eq!(BotRole::new_from_str("storyteller"), BotRole::StoryTeller);
    assert_eq!(BotRole::new_from_str("foodcritic"), BotRole::FoodCritic);
    assert_eq!(BotRole::new_from_str("anything else"), BotRole::Assistant);
}

#[test]
fn descriptions_are_fixed() {
    assert_eq!(
        BotRole::Assistant.description(),
        "I am now a Assistant, I will answer the question as concisely as possible unless work count specified"
    );
    assert_eq!(
        BotRole::Taler.description(),
        "I am now a fairy tale writer, I will help you write stories."
    );
    assert_eq!(
        BotRole::StoryTeller.description(),
        "I am now a story teller, I will help you wirte stories."
    );
}

#[test]
fn seed_messages_match_roles() {
    let seed = BotRole::Assistant.system_infomation();
    assert_eq!(seed.len(), 1);
    assert_eq!(seed[0].role(), qbot::gpt::GPTRole::System);
    assert!(seed[0].content().starts_with("You are a helpful assistant."));

    let seed = BotRole::FoodCritic.system_infomation();
    assert_eq!(seed.len(), 3);
    assert_eq!(seed[0].role(), qbot::gpt::GPTRole::System);
    assert_eq!(seed[1].role(), qbot::gpt::GPTRole::User);
    assert_eq!(seed[2].role(), qbot::gpt::GPTRole::Assistant);
}
