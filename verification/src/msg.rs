//! The chat transport's message records, and the pre-parse step that detects
//! an at-mention of the bot and strips CQ codes (`[CQ:...]` segments) out of
//! the message text.

use vstd::prelude::*;
use vstd::string::StrSliceExecFns;
use vstd::string::StringExecFns;
use crate::text::{
    contains_sub, skip_ws, spec_contains, spec_skip_ws, spec_u64_chars, spec_ws, u64_to_string,
};

verus! {

/// The action of an outbound message.
#[derive(Clone, Copy, Debug, PartialEq, Eq, Structural)]
pub enum SendMsgAction {
    SendPrivateMsg,
    SendGroupMsg,
}

/// The parameters of an outbound message.
#[derive(Debug)]
pub struct SendMsgParams {
    pub user_id: Option<u64>,
    pub group_id: Option<u64>,
    pub message: String,
}

/// One outbound message.
#[derive(Debug)]
pub struct SendMsg {
    pub action: SendMsgAction,
    pub params: SendMsgParams,
}

impl SendMsg {
    /// An outbound private message to one user.
    pub fn new_private_msg(user_id: u64, message: String) -> (r: Self)
        ensures
            r.action == SendMsgAction::SendPrivateMsg,
            r.params.user_id == Some(user_id),
            r.params.group_id is None,
            r.params.message@ == message@,
    {
        SendMsg {
            action: SendMsgAction::SendPrivateMsg,
            params: SendMsgParams { user_id: Some(user_id), group_id: None, message },
        }
    }

    /// An outbound group message that opens with an at-mention of the user
    /// being answered.
    pub fn new_group_reply_msg_at(group_id: u64, user_id: u64, message: String) -> (r: Self)
        ensures
            r.action == SendMsgAction::SendGroupMsg,
            r.params.user_id is None,
            r.params.group_id == Some(group_id),
            r.params.message@ == "[CQ:at,qq="@ + spec_u64_chars(user_id as nat) + "]"@
                + message@,
    {
        let mut m = "[CQ:at,qq=".to_owned();
        let t = u64_to_string(user_id);
        m.append(t.as_str());
        m.append("]");
        m.append(message.as_str());
        SendMsg {
            action: SendMsgAction::SendGroupMsg,
            params: SendMsgParams { user_id: None, group_id: Some(group_id), message: m },
        }
    }

    /// The reply for a scope: at-reply into the group, or a private message.
    pub fn new_message(group_id: Option<u64>, user_id: u64, message: String) -> (r: Self)
        ensures
            match group_id {
                Some(g) => r.action == SendMsgAction::SendGroupMsg && r.params.group_id == Some(g)
                    && r.params.user_id is None && r.params.message@ == "[CQ:at,qq="@
                    + spec_u64_chars(user_id as nat) + "]"@ + message@,
                None => r.action == SendMsgAction::SendPrivateMsg && r.params.user_id == Some(
                    user_id,
                ) && r.params.group_id is None && r.params.message@ == message@,
            },
    {
        match group_id {
            Some(group_id) => Self::new_group_reply_msg_at(group_id, user_id, message),
            None => Self::new_private_msg(user_id, message),
        }
    }
}

/// The kind of an inbound event.
#[derive(Clone, Copy, Debug, PartialEq, Eq, Structural)]
pub enum PostMessageType {
    Message,
    MetaEvent,
    Request,
    Notice,
}

/// Whether a message came from a group or a private chat.
#[derive(Clone, Copy, Debug, PartialEq, Eq, Structural)]
pub enum MessageType {
    Group,
    Private,
}

/// The sender block of an inbound message.
#[derive(Debug)]
pub struct Sender {
    pub age: i64,
    pub nickname: String,
    pub sex: String,
    pub user_id: u64,
}

/// The envelope read first, to learn an inbound event's kind.
#[derive(Debug)]
pub struct PostMsg {
    pub post_type: PostMessageType,
}

/// An inbound chat message.
#[derive(Debug)]
pub struct PostMessageMsg {
    pub post_type: PostMessageType,
    pub message_type: MessageType,
    pub time: u64,
    pub self_id: u64,
    pub user_id: u64,
    pub sub_type: String,
    pub sender: Sender,
    pub message: String,
    pub raw_message: String,
    pub message_id: i64,
    pub font: i64,
    pub group_id: Option<u64>,
    pub target_id: Option<u64>,
}

/// An inbound meta event; nothing of it is read.
#[derive(Debug)]
pub struct PostMetaEventMsg {
}

/// The kind of an inbound request.
#[derive(Clone, Copy, Debug, PartialEq, Eq, Structural)]
pub enum RequestType {
    Friend,
    Group,
}

/// The name a request kind prints as.
pub open spec fn spec_request_type_text(t: RequestType) -> Seq<char> {
    match t {
        RequestType::Friend => "friend"@,
        RequestType::Group => "group"@,
    }
}

impl RequestType {
    /// The kind's name, as it is printed.
    pub fn text(&self) -> (r: &'static str)
        ensures
            r@ == spec_request_type_text(*self),
    {
        match self {
            RequestType::Friend => "friend",
            RequestType::Group => "group",
        }
    }
}

/// An inbound friend or group request.
#[derive(Debug)]
pub struct PostRequestMsg {
    pub post_type: PostMessageType,
    pub request_type: RequestType,
    pub time: u64,
    pub self_id: u64,
    pub user_id: u64,
    pub comment: String,
    pub flag: String,
}

impl PostRequestMsg {
    /// The one-line rendering of a request, as it is printed.
    pub fn text(&self) -> (r: String)
        ensures
            r@ == "type: "@ + spec_request_type_text(self.request_type) + ", user_id: "@
                + spec_u64_chars(self.user_id as nat) + ", comment:"@ + self.comment@,
    {
        let mut s = "type: ".to_owned();
        s.append(self.request_type.text());
        s.append(", user_id: ");
        let t = u64_to_string(self.user_id);
        s.append(t.as_str());
        s.append(", comment:");
        s.append(self.comment.as_str());
        s
    }
}

/// The kind of an inbound notice.
#[derive(Clone, Copy, Debug, PartialEq, Eq, Structural)]
pub enum NoticeType {
    GroupUpload,
    GroupAdmin,
    GroupDecrease,
    GroupIncrease,
    GroupBan,
    FriendAdd,
    GroupRecall,
    FriendRecall,
    GroupCard,
    OfflineFile,
    ClientStatus,
    Essence,
    Notify,
}

/// An inbound notice.
#[derive(Debug)]
pub struct PostNoticeMsg {
    pub post_type: PostMessageType,
    pub notice_type: NoticeType,
    pub time: u64,
    pub self_id: u64,
    pub user_id: u64,
}

/// First index at or after `k` that closes a CQ segment (`]`), breaks it
/// (a line break), or is the end of the text.
pub open spec fn spec_cq_seg_end(s: Seq<char>, k: int) -> int
    recommends
        0 <= k <= s.len(),
    decreases s.len() - k,
{
    if k < s.len() && s[k] != ']' && s[k] != '\n' {
        spec_cq_seg_end(s, k + 1)
    } else {
        k
    }
}

pub proof fn lemma_cq_seg_end_bounds(s: Seq<char>, k: int)
    requires
        0 <= k <= s.len(),
    ensures
        k <= spec_cq_seg_end(s, k) <= s.len(),
    decreases s.len() - k,
{
    if k < s.len() && s[k] != ']' && s[k] != '\n' {
        lemma_cq_seg_end_bounds(s, k + 1);
    }
}

/// A CQ code starts at `i`: `[CQ:`, then anything up to the nearest `]` on
/// the same line.
pub open spec fn spec_cq_match_at(s: Seq<char>, i: int) -> bool {
    &&& 0 <= i
    &&& i + 4 <= s.len()
    &&& s.subrange(i, i + 4) == "[CQ:"@
    &&& spec_cq_seg_end(s, i + 4) < s.len()
    &&& s[spec_cq_seg_end(s, i + 4)] == ']'
}

/// The text from `i` on with every CQ code removed: each code is skipped
/// whole, every other character is kept.
pub open spec fn spec_strip_cq_from(s: Seq<char>, i: int) -> Seq<char>
    recommends
        0 <= i <= s.len(),
    decreases s.len() - i,
    via spec_strip_cq_from_decreases
{
    if i >= s.len() {
        Seq::empty()
    } else if spec_cq_match_at(s, i) {
        spec_strip_cq_from(s, spec_cq_seg_end(s, i + 4) + 1)
    } else {
        seq![s[i]] + spec_strip_cq_from(s, i + 1)
    }
}

#[via_fn]
proof fn spec_strip_cq_from_decreases(s: Seq<char>, i: int) {
    if !(i >= s.len()) && spec_cq_match_at(s, i) {
        lemma_cq_seg_end_bounds(s, i + 4);
    }
}

/// First index at or after which no trailing whitespace follows, scanning
/// down from `j`.
pub open spec fn spec_trim_end_idx(s: Seq<char>, j: int) -> int
    recommends
        0 <= j <= s.len(),
    decreases j,
{
    if j > 0 && spec_ws(s[j - 1]) {
        spec_trim_end_idx(s, j - 1)
    } else {
        j
    }
}

/// The text with leading and trailing whitespace removed.
pub open spec fn spec_trim(s: Seq<char>) -> Seq<char> {
    let a = spec_skip_ws(s, 0);
    let b = spec_trim_end_idx(s, s.len() as int);
    if a <= b {
        s.subrange(a, b)
    } else {
        Seq::empty()
    }
}

/// Looks for a CQ code starting at `i`; hands back the index of its closing
/// bracket.
fn cq_match_at(s: &str, i: usize, n: usize) -> (r: Option<usize>)
    requires
        n == s@.len(),
        i < n,
    ensures
        match r {
            Some(j) => spec_cq_match_at(s@, i as int) && j == spec_cq_seg_end(s@, i as int + 4)
                && i + 4 <= j < n,
            None => !spec_cq_match_at(s@, i as int),
        },
{
    if n - i < 4 {
        return None;
    }
    proof {
        reveal_strlit("[CQ:");
    }
    if !(s.get_char(i) == '[' && s.get_char(i + 1) == 'C' && s.get_char(i + 2) == 'Q'
        && s.get_char(i + 3) == ':') {
        proof {
            if s@.subrange(i as int, i as int + 4) == "[CQ:"@ {
                assert(s@.subrange(i as int, i as int + 4)[0] == s@[i as int]);
                assert(s@.subrange(i as int, i as int + 4)[1] == s@[i as int + 1]);
                assert(s@.subrange(i as int, i as int + 4)[2] == s@[i as int + 2]);
                assert(s@.subrange(i as int, i as int + 4)[3] == s@[i as int + 3]);
            }
        }
        return None;
    }
    proof {
        assert(s@.subrange(i as int, i as int + 4) =~= "[CQ:"@);
    }
    let mut k = i + 4;
    loop
        invariant
            i + 4 <= k <= n,
            n == s@.len(),
            s@.subrange(i as int, i as int + 4) == "[CQ:"@,
            spec_cq_seg_end(s@, i as int + 4) == spec_cq_seg_end(s@, k as int),
        decreases n - k,
    {
        if k < n {
            let c = s.get_char(k);
            if c == ']' {
                return Some(k);
            } else if c == '\n' {
                return None;
            } else {
                k += 1;
            }
        } else {
            return None;
        }
    }
}

/// Removes every CQ code from the text.
pub fn strip_cq_codes(s: &str) -> (r: String)
    ensures
        r@ == spec_strip_cq_from(s@, 0),
{
    let n = s.unicode_len();
    let mut out = String::new();
    let mut i: usize = 0;
    let mut seg: usize = 0;
    while i < n
        invariant
            seg <= i <= n,
            n == s@.len(),
            spec_strip_cq_from(s@, 0) == out@ + s@.subrange(seg as int, i as int)
                + spec_strip_cq_from(s@, i as int),
        decreases n - i,
    {
        match cq_match_at(s, i, n) {
            Some(j) => {
                let piece = s.substring_char(seg, i);
                out.append(piece);
                i = j + 1;
                seg = i;
            },
            None => {
                proof {
                    assert(s@.subrange(seg as int, i as int) + seq![s@[i as int]] =~= s@.subrange(
                        seg as int,
                        i as int + 1,
                    ));
                    assert(out@ + s@.subrange(seg as int, i as int) + (seq![s@[i as int]]
                        + spec_strip_cq_from(s@, i as int + 1)) == out@ + s@.subrange(
                        seg as int,
                        i as int + 1,
                    ) + spec_strip_cq_from(s@, i as int + 1));
                }
                i += 1;
            },
        }
    }
    let piece = s.substring_char(seg, n);
    out.append(piece);
    proof {
        assert(spec_strip_cq_from(s@, n as int) =~= Seq::<char>::empty());
        assert(out@ =~= spec_strip_cq_from(s@, 0));
    }
    out
}

/// The end of the text once trailing whitespace is dropped.
fn trim_end_idx(s: &str) -> (b: usize)
    ensures
        b == spec_trim_end_idx(s@, s@.len() as int),
        b <= s@.len(),
{
    let n = s.unicode_len();
    let mut b = n;
    loop
        invariant
            0 <= b <= n,
            n == s@.len(),
            spec_trim_end_idx(s@, n as int) == spec_trim_end_idx(s@, b as int),
        decreases b,
    {
        if b > 0 {
            if crate::text::is_ws_char(s.get_char(b - 1)) {
                b -= 1;
            } else {
                return b;
            }
        } else {
            return b;
        }
    }
}

/// Copies the text without its leading and trailing whitespace.
pub fn trim_str(s: &str) -> (r: String)
    ensures
        r@ == spec_trim(s@),
{
    let n = s.unicode_len();
    let a = skip_ws(s, 0);
    let b = trim_end_idx(s);
    if a <= b {
        s.substring_char(a, b).to_owned()
    } else {
        proof {
            assert(spec_trim(s@) =~= Seq::<char>::empty());
            reveal_strlit("");
        }
        "".to_owned()
    }
}

impl PostMessageMsg {
    /// Group or private?
    pub fn message_type(&self) -> (r: &MessageType)
        ensures
            r == self.message_type,
    {
        &self.message_type
    }

    /// Whether the raw text at-mentions the bot, and the message with every
    /// CQ code stripped and the remainder trimmed.
    pub fn pre_parse_msg(self, bot_id: u64) -> (r: (bool, Self))
        ensures
            r.0 == spec_contains(self.raw_message@, "CQ:at,qq="@ + spec_u64_chars(bot_id as nat)),
            r.1.message@ == spec_trim(spec_strip_cq_from(self.message@, 0)),
            r.1.post_type == self.post_type,
            r.1.message_type == self.message_type,
            r.1.time == self.time,
            r.1.self_id == self.self_id,
            r.1.user_id == self.user_id,
            r.1.sub_type@ == self.sub_type@,
            r.1.raw_message@ == self.raw_message@,
            r.1.message_id == self.message_id,
            r.1.font == self.font,
            r.1.group_id == self.group_id,
            r.1.target_id == self.target_id,
    {
        let mut pat = "CQ:at,qq=".to_owned();
        let t = u64_to_string(bot_id);
        pat.append(t.as_str());
        let is_at_msg = contains_sub(self.raw_message.as_str(), pat.as_str());
        let stripped = strip_cq_codes(self.message.as_str());
        let cleaned = trim_str(stripped.as_str());
        (is_at_msg, PostMessageMsg { message: cleaned, ..self })
    }

    /// The group the message came from; zero for a private message.
    pub fn group_id(&self) -> (r: u64)
        ensures
            r == (match self.group_id {
                Some(g) => g,
                None => 0u64,
            }),
    {
        match self.group_id {
            Some(g) => g,
            None => 0,
        }
    }

    /// The sender's identity.
    pub fn user_id(&self) -> (r: u64)
        ensures
            r == self.user_id,
    {
        self.user_id
    }

    /// The message text.
    pub fn message(&self) -> (r: &String)
        ensures
            r@ == self.message@,
    {
        &self.message
    }

    /// The message's timestamp.
    pub fn message_ts(&self) -> (r: u64)
        ensures
            r == self.time,
    {
        self.time
    }
}

} // verus!
