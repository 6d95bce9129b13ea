//! The transport layer's error type, and the extraction of the remote
//! service's own error message out of a reply that did not parse.

use vstd::prelude::*;
use vstd::string::StrSliceExecFns;
use vstd::string::StringExecFns;
use crate::text::str_eq;

verus! {

/// What went wrong while talking to the remote side.
#[derive(Debug)]
pub enum BotError {
    HttpsRequestError(String),
    GPTReturnError(String),
}

/// The reply text each transport error is surfaced as.
pub open spec fn spec_bot_error_message(e: BotError) -> Seq<char> {
    match e {
        BotError::HttpsRequestError(m) => "error:HttpsRequestError "@ + m@,
        BotError::GPTReturnError(m) => "error:GPTReturnError "@ + m@,
    }
}

impl BotError {
    /// Renders the error as the text shown to the user.
    pub fn message(&self) -> (r: String)
        ensures
            r@ == spec_bot_error_message(*self),
    {
        match self {
            BotError::HttpsRequestError(m) => {
                let mut s = "error:HttpsRequestError ".to_owned();
                s.append(m.as_str());
                s
            },
            BotError::GPTReturnError(m) => {
                let mut s = "error:GPTReturnError ".to_owned();
                s.append(m.as_str());
                s
            },
        }
    }
}

/// First index at or after `k` holding a quote or a line break, or the end.
pub open spec fn spec_quote_end(s: Seq<char>, k: int) -> int
    recommends
        0 <= k <= s.len(),
    decreases s.len() - k,
{
    if k < s.len() && s[k] != '"' && s[k] != '\n' {
        spec_quote_end(s, k + 1)
    } else {
        k
    }
}

/// An error fragment starts at `i`: the marker `message": "`, then anything
/// up to the nearest closing quote on the same line.
pub open spec fn spec_err_match_at(s: Seq<char>, i: int) -> bool {
    let p = "message\": \""@;
    &&& 0 <= i
    &&& i + p.len() <= s.len()
    &&& s.subrange(i, i + p.len() as int) == p
    &&& spec_quote_end(s, i + p.len() as int) < s.len()
    &&& s[spec_quote_end(s, i + p.len() as int)] == '"'
}

/// First index at or after `i` where an error fragment starts, or the end.
pub open spec fn spec_err_scan(s: Seq<char>, i: int) -> int
    recommends
        0 <= i <= s.len(),
    decreases s.len() - i,
{
    if i >= s.len() {
        i
    } else if spec_err_match_at(s, i) {
        i
    } else {
        spec_err_scan(s, i + 1)
    }
}

/// The leftmost error fragment of a reply, marker and closing quote
/// included, when the reply holds one.
pub open spec fn spec_extract_gpt_error(s: Seq<char>) -> Option<Seq<char>> {
    let i = spec_err_scan(s, 0);
    if spec_err_match_at(s, i) {
        Some(s.subrange(i, spec_quote_end(s, i + "message\": \""@.len() as int) + 1))
    } else {
        None
    }
}

/// Does an error fragment start at `i`? Hands back one past its closing
/// quote.
fn err_match_at(s: &str, i: usize, n: usize, pl: usize) -> (r: Option<usize>)
    requires
        n == s@.len(),
        pl == "message\": \""@.len(),
        i < n,
    ensures
        match r {
            Some(e) => spec_err_match_at(s@, i as int) && e == spec_quote_end(
                s@,
                i + "message\": \""@.len(),
            ) && i + pl <= e < n,
            None => !spec_err_match_at(s@, i as int),
        },
{
    if n - i < pl {
        return None;
    }
    let frag = s.substring_char(i, i + pl);
    if !str_eq(frag, "message\": \"") {
        proof {
            assert(s@.subrange(i as int, i + pl as int) != "message\": \""@);
        }
        return None;
    }
    proof {
        assert(s@.subrange(i as int, i + pl as int) == "message\": \""@);
    }
    let mut k = i + pl;
    loop
        invariant
            i + pl <= k <= n,
            n == s@.len(),
            pl == "message\": \""@.len(),
            s@.subrange(i as int, i + pl as int) == "message\": \""@,
            spec_quote_end(s@, i + pl as int) == spec_quote_end(s@, k as int),
        decreases n - k,
    {
        if k < n {
            let c = s.get_char(k);
            if c == '"' {
                return Some(k);
            } else if c == '\n' {
                return None;
            } else {
                k += 1;
            }
        } else {
            return None;
        }
    }
}

/// Pulls the remote service's own error message out of a reply that failed
/// to parse: the leftmost `message": "..."` fragment, when there is one.
pub fn extract_gpt_error(resp: &str) -> (r: Option<String>)
    ensures
        match r {
            Some(m) => spec_extract_gpt_error(resp@) == Some(m@),
            None => spec_extract_gpt_error(resp@) is None,
        },
{
    let n = resp.unicode_len();
    let pl = "message\": \"".unicode_len();
    let mut i: usize = 0;
    loop
        invariant
            i <= n,
            n == resp@.len(),
            pl == "message\": \""@.len(),
            spec_err_scan(resp@, 0) == spec_err_scan(resp@, i as int),
        decreases n - i,
    {
        if i < n {
            match err_match_at(resp, i, n, pl) {
                Some(e) => {
                    let frag = resp.substring_char(i, e + 1);
                    return Some(frag.to_owned());
                },
                None => {
                    i += 1;
                },
            }
        } else {
            return None;
        }
    }
}

} // verus!
