//! The command grammars: user commands and admin (root) commands.
//!
//! Both parsers split the text on whitespace and read the first token as the
//! verb, matched without regard to ASCII case; neither touches any state,
//! and every unrecognized form maps to the `Invalid` opcode so the caller
//! decides how to surface it.

use vstd::prelude::*;
use vstd::string::StrSliceExecFns;
use crate::role::{spec_role_from_str, BotRole};
use crate::text::{
    parse_u64_str, skip_ws, spec_eq_ci, spec_parse_u64, spec_skip_ws, spec_token_end,
    str_eq_ignore_ascii_case, token_end,
};

verus! {

/// The menu shown for the `help` command.
pub const COMMAND_HELP_INFO: &'static str = "\n    - `#role { name }` to set role\n        - assistant | clippy | taler | storyteller | foodcritic | default\n    - `#clean` to clean chat history\n    - `#reset` to reset everything\n    - `#help` for this menu\n    ";

/// The greeting sent to a newly added friend.
pub const GREETING_MESSAGE: &'static str = "Hi! I'm a chatbot developed by EluvK and open-sourced at https://github.com/EluvK/qbot. Type `#help` to get the list of commands.";

/// A user-level command.
#[derive(Clone, Copy, Debug, PartialEq, Eq, Structural)]
pub enum Opcode {
    Invalid,
    Role(BotRole),
    Reset,
    Clean,
    Help,
}

/// An admin-level command.
#[derive(Clone, Copy, Debug, PartialEq, Eq, Structural)]
pub enum RootOpcode {
    Invalid,
    Deny(u64),
    Allow(u64),
    Reset(u64),
    ResetAll,
}

/// The first whitespace-delimited token of `s` at or after `i`, as its bounds:
/// start and one-past-end. Start equal to the length means no token is left.
pub open spec fn spec_token_bounds(s: Seq<char>, i: int) -> (int, int) {
    let start = spec_skip_ws(s, i);
    (start, spec_token_end(s, start))
}

/// The user command `s` denotes.
pub open spec fn spec_parse_instructions(s: Seq<char>) -> Opcode {
    let (t1s, t1e) = spec_token_bounds(s, 0);
    if t1s == s.len() {
        Opcode::Invalid
    } else {
        let verb = s.subrange(t1s, t1e);
        if spec_eq_ci(verb, "clean"@) {
            Opcode::Clean
        } else if spec_eq_ci(verb, "reset"@) {
            Opcode::Reset
        } else if spec_eq_ci(verb, "help"@) {
            Opcode::Help
        } else if spec_eq_ci(verb, "role"@) {
            let (t2s, t2e) = spec_token_bounds(s, t1e);
            if t2s == s.len() {
                Opcode::Role(BotRole::Assistant)
            } else {
                Opcode::Role(spec_role_from_str(s.subrange(t2s, t2e)))
            }
        } else {
            Opcode::Invalid
        }
    }
}

/// The admin command `s` denotes.
pub open spec fn spec_parse_root_instructions(s: Seq<char>) -> RootOpcode {
    let (t1s, t1e) = spec_token_bounds(s, 0);
    if t1s == s.len() {
        RootOpcode::Invalid
    } else {
        let verb = s.subrange(t1s, t1e);
        let (t2s, t2e) = spec_token_bounds(s, t1e);
        let arg = if t2s == s.len() {
            None
        } else {
            spec_parse_u64(s.subrange(t2s, t2e))
        };
        if spec_eq_ci(verb, "deny"@) {
            if t2s == s.len() {
                RootOpcode::Invalid
            } else {
                match arg {
                    Some(q) => RootOpcode::Deny(q),
                    None => RootOpcode::Invalid,
                }
            }
        } else if spec_eq_ci(verb, "allow"@) {
            if t2s == s.len() {
                RootOpcode::Invalid
            } else {
                match arg {
                    Some(q) => RootOpcode::Allow(q),
                    None => RootOpcode::Invalid,
                }
            }
        } else if spec_eq_ci(verb, "reset"@) {
            if t2s == s.len() {
                RootOpcode::ResetAll
            } else {
                match arg {
                    Some(q) => RootOpcode::Reset(q),
                    None => RootOpcode::Invalid,
                }
            }
        } else {
            RootOpcode::Invalid
        }
    }
}

/// Reads the text following the user command prefix as a user command.
pub fn parse_instructions(ins: &str) -> (r: Opcode)
    ensures
        r == spec_parse_instructions(ins@),
{
    let n = ins.unicode_len();
    let t1s = skip_ws(ins, 0);
    if t1s == n {
        return Opcode::Invalid;
    }
    let t1e = token_end(ins, t1s);
    let verb = ins.substring_char(t1s, t1e);
    if str_eq_ignore_ascii_case(verb, "clean") {
        Opcode::Clean
    } else if str_eq_ignore_ascii_case(verb, "reset") {
        Opcode::Reset
    } else if str_eq_ignore_ascii_case(verb, "help") {
        Opcode::Help
    } else if str_eq_ignore_ascii_case(verb, "role") {
        let t2s = skip_ws(ins, t1e);
        if t2s == n {
            Opcode::Role(BotRole::Assistant)
        } else {
            let t2e = token_end(ins, t2s);
            Opcode::Role(BotRole::new_from_str(ins.substring_char(t2s, t2e)))
        }
    } else {
        Opcode::Invalid
    }
}

/// Reads the text following the admin command prefix as an admin command.
pub fn parse_root_instructions(ins: &str) -> (r: RootOpcode)
    ensures
        r == spec_parse_root_instructions(ins@),
{
    let n = ins.unicode_len();
    let t1s = skip_ws(ins, 0);
    if t1s == n {
        return RootOpcode::Invalid;
    }
    let t1e = token_end(ins, t1s);
    let verb = ins.substring_char(t1s, t1e);
    let t2s = skip_ws(ins, t1e);
    let arg: Option<u64> = if t2s == n {
        None
    } else {
        let t2e = token_end(ins, t2s);
        parse_u64_str(ins.substring_char(t2s, t2e))
    };
    if str_eq_ignore_ascii_case(verb, "deny") {
        if t2s == n {
            RootOpcode::Invalid
        } else {
            match arg {
                Some(q) => RootOpcode::Deny(q),
                None => RootOpcode::Invalid,
            }
        }
    } else if str_eq_ignore_ascii_case(verb, "allow") {
        if t2s == n {
            RootOpcode::Invalid
        } else {
            match arg {
                Some(q) => RootOpcode::Allow(q),
                None => RootOpcode::Invalid,
            }
        }
    } else if str_eq_ignore_ascii_case(verb, "reset") {
        if t2s == n {
            RootOpcode::ResetAll
        } else {
            match arg {
                Some(q) => RootOpcode::Reset(q),
                None => RootOpcode::Invalid,
            }
        }
    } else {
        RootOpcode::Invalid
    }
}

} // verus!
