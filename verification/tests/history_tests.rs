use std::collections::{HashMap, HashSet};
use qbot::history::{BotHistory, BotHistoryOp};

#[test]
fn deny_mutations_apply_per_scope() {
    let mut h = BotHistory::new();
    h.sync_op(Some(123), BotHistoryOp::AddDeny(1));
    h.sync_op(Some(123), BotHistoryOp::AddDeny(222));
    h.sync_op(Some(456), BotHistoryOp::AddDeny(3));
    h.sync_op(None, BotHistoryOp::AddDeny(9));
    assert!(h.groups().get(&123).unwrap().contains(&1));
    assert!(h.groups().get(&123).unwrap().contains(&222));
    assert!(h.groups().get(&456).unwrap().contains(&3));
    assert!(!h.groups().contains_key(&9));
    assert!(h.private_denies().contains(&9));

    h.sync_op(Some(123), BotHistoryOp::RemoveDeny(1));
    assert!(!h.groups().get(&123).unwrap().contains(&1));
    assert!(h.groups().get(&123).unwrap().contains(&222));
    h.sync_op(None, BotHistoryOp::RemoveDeny(9));
    assert!(!h.private_denies().contains(&9));
}

#[test]
fn removing_from_an_unknown_scope_leaves_an_empty_entry() {
    let mut h = BotHistory::new();
    h.sync_op(Some(5), BotHistoryOp::RemoveDeny(77));
    assert!(h.groups().get(&5).unwrap().is_empty());
}

#[test]
fn loaded_group_denies_round_trip() {
    let mut groups: HashMap<u64, HashSet<u64>> = HashMap::new();
    let mut set: HashSet<u64> = HashSet::new();
    set.insert(1);
    set.insert(222);
    set.insert(3);
    groups.insert(123, set);
    let h = BotHistory::from_parts(groups, HashSet::new());
    let loaded = h.load_group_deny_history();
    assert_eq!(loaded.len(), 1);
    let s = loaded.get(&123).unwrap();
    assert_eq!(s.len(), 3);
    assert!(s.contains(&1) && s.contains(&222) && s.contains(&3));
}
