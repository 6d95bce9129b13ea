//! The deny-list store: the per-scope sets of denied identities that survive
//! restarts. The library keeps the sets and applies mutations; reading and
//! rewriting the backing file is the caller's job, done after every mutation.

use std::collections::{HashMap, HashSet};
use vstd::prelude::*;

verus! {

/// One admin mutation of the deny lists.
#[derive(Clone, Copy, Debug, PartialEq, Eq, Structural)]
pub enum BotHistoryOp {
    AddDeny(u64),
    RemoveDeny(u64),
}

/// Settings that survive restarts: the deny lists of every scope.
#[derive(Debug)]
pub struct BotHistory {
    group_denies: HashMap<u64, HashSet<u64>>,
    private_denies: HashSet<u64>,
}

/// Mathematical value of a [`BotHistory`].
#[verifier::ext_equal]
pub struct BotHistoryView {
    pub groups: Map<u64, Set<u64>>,
    pub private_denies: Set<u64>,
}

impl View for BotHistory {
    type V = BotHistoryView;

    closed spec fn view(&self) -> BotHistoryView {
        BotHistoryView {
            groups: self.group_denies@.map_values(|s: HashSet<u64>| s@),
            private_denies: self.private_denies@,
        }
    }
}

/// The deny set a history holds for a group, empty when the group is unknown.
pub open spec fn spec_group_denies(h: BotHistoryView, group_id: u64) -> Set<u64> {
    if h.groups.contains_key(group_id) {
        h.groups[group_id]
    } else {
        Set::empty()
    }
}

/// One deny-list mutation applied to a set of denied identities.
pub open spec fn spec_apply_op(s: Set<u64>, op: BotHistoryOp) -> Set<u64> {
    match op {
        BotHistoryOp::AddDeny(u) => s.insert(u),
        BotHistoryOp::RemoveDeny(u) => s.remove(u),
    }
}

/// A history after one mutation in one scope.
pub open spec fn spec_sync_op(h: BotHistoryView, group_id: Option<u64>, op: BotHistoryOp) -> BotHistoryView {
    match group_id {
        Some(g) => BotHistoryView {
            groups: h.groups.insert(g, spec_apply_op(spec_group_denies(h, g), op)),
            ..h
        },
        None => BotHistoryView { private_denies: spec_apply_op(h.private_denies, op), ..h },
    }
}

impl BotHistory {
    /// A history with every deny list empty.
    pub fn new() -> (r: Self)
        ensures
            r@.groups == Map::<u64, Set<u64>>::empty(),
            r@.private_denies == Set::<u64>::empty(),
    {
        let r = BotHistory { group_denies: HashMap::new(), private_denies: HashSet::new() };
        proof {
            assert(r@.groups =~= Map::<u64, Set<u64>>::empty());
        }
        r
    }

    /// A history holding the given deny lists, as read back from storage.
    pub fn from_parts(group_denies: HashMap<u64, HashSet<u64>>, private_denies: HashSet<u64>) -> (r:
        Self)
        ensures
            r@.groups == group_denies@.map_values(|s: HashSet<u64>| s@),
            r@.private_denies == private_denies@,
    {
        BotHistory { group_denies, private_denies }
    }

    /// The deny list of every group, copied out, for seeding the scope
    /// managers at startup.
    pub fn load_group_deny_history(&self) -> (r: HashMap<u64, HashSet<u64>>)
        ensures
            r@.map_values(|s: HashSet<u64>| s@) == self@.groups,
    {
        self.group_denies.clone()
    }

    /// Applies one deny-list mutation in the given scope. The caller persists
    /// the store right after this returns.
    pub fn sync_op(&mut self, group_id: Option<u64>, op: BotHistoryOp)
        ensures
            final(self)@ == spec_sync_op(old(self)@, group_id, op),
    {
        match group_id {
            Some(g) => {
                let mut set = match self.group_denies.remove(&g) {
                    Some(s) => s,
                    None => HashSet::new(),
                };
                match op {
                    BotHistoryOp::AddDeny(u) => {
                        set.insert(u);
                    },
                    BotHistoryOp::RemoveDeny(u) => {
                        set.remove(&u);
                    },
                }
                self.group_denies.insert(g, set);
                proof {
                    assert(self@.groups =~= spec_sync_op(old(self)@, group_id, op).groups);
                    assert(self@ =~= spec_sync_op(old(self)@, group_id, op));
                }
            },
            None => {
                match op {
                    BotHistoryOp::AddDeny(u) => {
                        self.private_denies.insert(u);
                    },
                    BotHistoryOp::RemoveDeny(u) => {
                        self.private_denies.remove(&u);
                    },
                }
                proof {
                    assert(self@ =~= spec_sync_op(old(self)@, group_id, op));
                }
            },
        }
    }

    /// The group deny lists, for persisting.
    pub fn groups(&self) -> (r: &HashMap<u64, HashSet<u64>>)
        ensures
            r@.map_values(|s: HashSet<u64>| s@) == self@.groups,
    {
        &self.group_denies
    }

    /// The private-scope deny list, for persisting.
    pub fn private_denies(&self) -> (r: &HashSet<u64>)
        ensures
            r@ == self@.private_denies,
    {
        &self.private_denies
    }
}

} // verus!
