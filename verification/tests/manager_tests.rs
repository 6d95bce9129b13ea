use qbot::gpt::{GPTMessages, GPTRole};
use qbot::history::BotHistory;
use qbot::private_manager::{ChatManager, PrivateManager, PrivateManagerError};

const ASSISTANT_SEED: &str = "You are a helpful assistant. Unless there is a specific word count requirement, please answer the question as concisely as possible";

fn history_contents(pm: &PrivateManager, user: u64) -> Vec<(GPTRole, String)> {
    pm.get_histories(user)
        .expect("context should exist")
        .iter()
        .map(|m| (m.role(), m.content().clone()))
        .collect()
}

#[test]
fn admitted_turn_appends_user_message() {
    let mut pm = PrivateManager::new(1);
    let r = pm.pre_handle_private_message(42, 100, "hi".to_string());
    assert!(matches!(r, Ok(true)));
    let h = history_contents(&pm, 42);
    assert_eq!(h.len(), 2);
    assert_eq!(h[0], (GPTRole::System, ASSISTANT_SEED.to_string()));
    assert_eq!(h[1], (GPTRole::User, "hi".to_string()));
}

#[test]
fn second_turn_while_in_flight_is_rejected() {
    let mut pm = PrivateManager::new(1);
    assert!(matches!(pm.pre_handle_private_message(42, 100, "one".to_string()), Ok(true)));
    // the first turn is still unresolved
    let r = pm.pre_handle_private_message(42, 500, "two".to_string());
    match r {
        Err(e @ PrivateManagerError::OnceMessageATime) => {
            assert_eq!(e.message(), "Error: one message a time please.");
        },
        other => panic!("expected OnceMessageATime, got {:?}", other),
    }
    // resolving the turn clears the flag and the next one is admitted
    pm.after_handle_private_message(42);
    assert!(matches!(pm.pre_handle_private_message(42, 500, "two".to_string()), Ok(true)));
}

#[test]
fn rate_limit_window_is_exact() {
    let mut pm = PrivateManager::new(10);
    assert!(matches!(pm.pre_handle_private_message(7, 1000, "a".to_string()), Ok(true)));
    pm.after_handle_private_message(7);
    let r = pm.pre_handle_private_message(7, 1009, "b".to_string());
    match r {
        Err(e @ PrivateManagerError::QueryTooOften(wait)) => {
            assert_eq!(wait, 1);
            assert_eq!(e.message(), "Error: query too frequently. Wait 1 second please");
        },
        other => panic!("expected QueryTooOften(1), got {:?}", other),
    }
    // at exactly t + interval the turn is admitted
    assert!(matches!(pm.pre_handle_private_message(7, 1010, "b".to_string()), Ok(true)));
}

#[test]
fn long_idle_reseeds_history() {
    let mut pm = PrivateManager::new(10);
    assert!(matches!(pm.pre_handle_private_message(7, 100, "first".to_string()), Ok(true)));
    pm.after_handle_private_message(7);
    pm.push_history(7, GPTMessages::new_assist_message("reply".to_string()));
    assert_eq!(history_contents(&pm, 7).len(), 3);
    // 7201 seconds later the history is reseeded before the new turn lands
    assert!(matches!(pm.pre_handle_private_message(7, 7301, "second".to_string()), Ok(true)));
    let h = history_contents(&pm, 7);
    assert_eq!(h.len(), 2);
    assert_eq!(h[0], (GPTRole::System, ASSISTANT_SEED.to_string()));
    assert_eq!(h[1], (GPTRole::User, "second".to_string()));
}

#[test]
fn deny_list_blocks_and_allow_readmits() {
    let mut pm = PrivateManager::new(1);
    pm.deny(123);
    assert!(pm.is_deny(123));
    let r = pm.pre_handle_private_message(123, 50, "hello".to_string());
    assert!(matches!(r, Ok(false)));
    // nothing was touched: not even a context was created
    assert!(pm.get_histories(123).is_none());
    pm.allow(123);
    assert!(!pm.is_deny(123));
    assert!(matches!(pm.pre_handle_private_message(123, 50, "hello".to_string()), Ok(true)));
    assert!(pm.get_histories(123).is_some());
}

#[test]
fn rollback_restores_history_exactly() {
    let mut pm = PrivateManager::new(1);
    assert!(matches!(pm.pre_handle_private_message(9, 60, "x".to_string()), Ok(true)));
    pm.pop_history(9);
    let h = history_contents(&pm, 9);
    assert_eq!(h, vec![(GPTRole::System, ASSISTANT_SEED.to_string())]);
}

#[test]
fn user_commands_dispatch() {
    let mut pm = PrivateManager::new(1);
    let r = pm.pre_handle_private_message(1, 10, "#role storyteller".to_string());
    match r {
        Err(PrivateManagerError::CommandSuccess(m)) => {
            assert_eq!(m, "> set role succ I am now a story teller, I will help you wirte stories.");
        },
        other => panic!("expected CommandSuccess, got {:?}", other),
    }
    let r = pm.pre_handle_private_message(1, 10, "#clean".to_string());
    match r {
        Err(PrivateManagerError::CommandSuccess(m)) => assert_eq!(m, "> clean success"),
        other => panic!("expected CommandSuccess, got {:?}", other),
    }
    let r = pm.pre_handle_private_message(1, 10, "#reset".to_string());
    match r {
        Err(PrivateManagerError::CommandSuccess(m)) => assert_eq!(m, "> reset success"),
        other => panic!("expected CommandSuccess, got {:?}", other),
    }
    // after the reset the history is the assistant seed again
    let h = history_contents(&pm, 1);
    assert_eq!(h, vec![(GPTRole::System, ASSISTANT_SEED.to_string())]);
    let r = pm.pre_handle_private_message(1, 10, "#help".to_string());
    match r {
        Err(PrivateManagerError::CommandSuccess(m)) => {
            assert!(m.starts_with("> help:\n"));
            assert!(m.contains("`#role { name }` to set role"));
        },
        other => panic!("expected CommandSuccess, got {:?}", other),
    }
    let r = pm.pre_handle_private_message(1, 10, "#frobnicate".to_string());
    match r {
        Err(e @ PrivateManagerError::InvalidCommand) => {
            assert_eq!(e.message(), "Error: invalid command");
        },
        other => panic!("expected InvalidCommand, got {:?}", other),
    }
}

#[test]
fn role_switch_reseeds_under_new_persona() {
    let mut pm = PrivateManager::new(1);
    assert!(matches!(pm.pre_handle_private_message(1, 10, "hello".to_string()), Ok(true)));
    pm.after_handle_private_message(1);
    let r = pm.pre_handle_private_message(1, 10, "#role foodcritic".to_string());
    assert!(matches!(r, Err(PrivateManagerError::CommandSuccess(_))));
    let h = history_contents(&pm, 1);
    assert_eq!(h.len(), 3);
    assert_eq!(h[0].0, GPTRole::System);
    assert_eq!(h[1].0, GPTRole::User);
    assert_eq!(h[2].0, GPTRole::Assistant);
}

#[test]
fn commands_bypass_admission() {
    let mut pm = PrivateManager::new(1);
    assert!(matches!(pm.pre_handle_private_message(1, 10, "hello".to_string()), Ok(true)));
    // a command runs even while the turn is in flight, and is not rate limited
    let r = pm.pre_handle_private_message(1, 10, "#clean".to_string());
    assert!(matches!(r, Err(PrivateManagerError::CommandSuccess(_))));
}

#[test]
fn router_checks_admin_identity_first() {
    let mut cm = ChatManager::new(999, BotHistory::new());
    let r = cm.pre_handle_private_message(None, 42, 10, "#sudo deny 5".to_string());
    match r {
        Err(e @ PrivateManagerError::PermissionDeny) => {
            assert_eq!(e.message(), "Permission deny");
        },
        other => panic!("expected PermissionDeny, got {:?}", other),
    }
}

#[test]
fn admin_deny_and_allow_mutate_scope_and_store() {
    let mut cm = ChatManager::new(999, BotHistory::new());
    let r = cm.pre_handle_private_message(Some(7), 999, 10, "#sudo deny 5".to_string());
    match r {
        Err(PrivateManagerError::CommandSuccess(m)) => assert_eq!(m, "Deny 5"),
        other => panic!("expected CommandSuccess, got {:?}", other),
    }
    // the store was updated, for the caller to persist
    let groups = cm.history().groups();
    assert!(groups.get(&7).expect("group entry").contains(&5));
    // the denied user is dropped silently in that scope
    assert!(matches!(cm.pre_handle_private_message(Some(7), 5, 20, "hi".to_string()), Ok(false)));
    // but not in the private scope
    assert!(matches!(cm.pre_handle_private_message(None, 5, 20, "hi".to_string()), Ok(true)));
    let r = cm.pre_handle_private_message(Some(7), 999, 30, "#sudo allow 5".to_string());
    match r {
        Err(PrivateManagerError::CommandSuccess(m)) => assert_eq!(m, "Allow 5"),
        other => panic!("expected CommandSuccess, got {:?}", other),
    }
    assert!(!cm.history().groups().get(&7).expect("group entry").contains(&5));
    assert!(matches!(cm.pre_handle_private_message(Some(7), 5, 40, "hi".to_string()), Ok(true)));
}

#[test]
fn admin_reset_commands_acknowledge() {
    let mut cm = ChatManager::new(1, BotHistory::new());
    assert!(matches!(cm.pre_handle_private_message(Some(3), 8, 10, "hi".to_string()), Ok(true)));
    cm.after_handle_private_message(Some(3), 8);
    let r = cm.pre_handle_private_message(Some(3), 1, 20, "#sudo reset 8".to_string());
    match r {
        Err(PrivateManagerError::CommandSuccess(m)) => assert_eq!(m, "Reset 8"),
        other => panic!("expected CommandSuccess, got {:?}", other),
    }
    // the pending user message of identity 8 is gone: seed only
    assert_eq!(cm.get_histories(Some(3), 8).expect("context").len(), 1);
    let r = cm.pre_handle_private_message(Some(3), 1, 30, "#sudo reset".to_string());
    match r {
        Err(PrivateManagerError::CommandSuccess(m)) => assert_eq!(m, "Reset All"),
        other => panic!("expected CommandSuccess, got {:?}", other),
    }
    let r = cm.pre_handle_private_message(Some(3), 1, 40, "#sudo frobnicate".to_string());
    assert!(matches!(r, Err(PrivateManagerError::InvalidCommand)));
}

#[test]
fn router_seeds_group_denies_from_store() {
    let mut history = BotHistory::new();
    history.sync_op(Some(7), qbot::history::BotHistoryOp::AddDeny(5));
    let mut cm = ChatManager::new(999, history);
    assert!(matches!(cm.pre_handle_private_message(Some(7), 5, 10, "hi".to_string()), Ok(false)));
    assert!(matches!(cm.pre_handle_private_message(Some(8), 5, 10, "hi".to_string()), Ok(true)));
}

#[test]
fn private_and_group_cooldowns_differ() {
    let mut cm = ChatManager::new(999, BotHistory::new());
    // private scope: one second suffices
    assert!(matches!(cm.pre_handle_private_message(None, 1, 100, "a".to_string()), Ok(true)));
    cm.after_handle_private_message(None, 1);
    assert!(matches!(cm.pre_handle_private_message(None, 1, 101, "b".to_string()), Ok(true)));
    // group scope: ten seconds are needed
    assert!(matches!(cm.pre_handle_private_message(Some(2), 1, 100, "a".to_string()), Ok(true)));
    cm.after_handle_private_message(Some(2), 1);
    match cm.pre_handle_private_message(Some(2), 1, 101, "b".to_string()) {
        Err(PrivateManagerError::QueryTooOften(wait)) => assert_eq!(wait, 9),
        other => panic!("expected QueryTooOften, got {:?}", other),
    }
}

#[test]
fn end_to_end_failed_turn_rolls_back_and_retries() {
    // private scope, identity 42, role defaults to assistant
    let mut cm = ChatManager::new(999, BotHistory::new());
    let r = cm.pre_handle_private_message(None, 42, 100, "hi".to_string());
    assert!(matches!(r, Ok(true)));
    let before = cm.get_histories(None, 42).expect("context").len();
    assert_eq!(before, 2);
    // the remote call fails: roll the pending turn back, clear the flag
    cm.pop_history(None, 42);
    cm.after_handle_private_message(None, 42);
    assert_eq!(cm.get_histories(None, 42).expect("context").len(), 1);
    // the retry is admitted: no busy rejection, history grows again
    let r = cm.pre_handle_private_message(None, 42, 101, "hi".to_string());
    assert!(matches!(r, Ok(true)));
    assert_eq!(cm.get_histories(None, 42).expect("context").len(), 2);
    // and this time the reply lands
    cm.push_history(None, 42, GPTMessages::new_assist_message("hello!".to_string()));
    cm.after_handle_private_message(None, 42);
    let h = cm.get_histories(None, 42).expect("context");
    assert_eq!(h.len(), 3);
    assert_eq!(h[2].role(), GPTRole::Assistant);
    assert_eq!(h[2].content(), "hello!");
}

#[test]
fn clean_after_role_switch_changes_nothing() {
    let mut pm = PrivateManager::new(1);
    let r = pm.pre_handle_private_message(1, 10, "#role foodcritic".to_string());
    assert!(matches!(r, Err(PrivateManagerError::CommandSuccess(_))));
    let after_set_role = history_contents(&pm, 1);
    let r = pm.pre_handle_private_message(1, 10, "#clean".to_string());
    assert!(matches!(r, Err(PrivateManagerError::CommandSuccess(_))));
    // the history is identical to the one right after the role switch alone
    assert_eq!(history_contents(&pm, 1), after_set_role);
    assert_eq!(after_set_role.len(), 3);
}

#[test]
fn empty_message_is_a_plain_turn() {
    let mut pm = PrivateManager::new(1);
    assert!(matches!(pm.pre_handle_private_message(1, 10, "".to_string()), Ok(true)));
    let h = history_contents(&pm, 1);
    assert_eq!(h[1], (GPTRole::User, "".to_string()));
}

#[test]
fn lone_prefix_is_an_invalid_command() {
    let mut pm = PrivateManager::new(1);
    let r = pm.pre_handle_private_message(1, 10, "#".to_string());
    assert!(matches!(r, Err(PrivateManagerError::InvalidCommand)));
}

#[test]
fn extreme_timestamps_and_intervals() {
    let mut pm = PrivateManager::new(u64::MAX);
    match pm.pre_handle_private_message(1, u64::MAX - 1, "a".to_string()) {
        Err(PrivateManagerError::QueryTooOften(wait)) => assert_eq!(wait, 1),
        other => panic!("expected QueryTooOften, got {:?}", other),
    }
    assert!(matches!(pm.pre_handle_private_message(1, u64::MAX, "a".to_string()), Ok(true)));
    pm.after_handle_private_message(1);
    // the wait can exceed the timestamp range; it is reported saturated
    match pm.pre_handle_private_message(1, 0, "b".to_string()) {
        Err(PrivateManagerError::QueryTooOften(wait)) => assert_eq!(wait, u64::MAX),
        other => panic!("expected QueryTooOften, got {:?}", other),
    }
}
