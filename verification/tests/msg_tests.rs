use qbot::cqbot::{extract_gpt_error, BotError};
use qbot::msg::{
    strip_cq_codes, trim_str, MessageType, PostMessageMsg, PostMessageType, RequestType,
    SendMsg, SendMsgAction, Sender,
};

fn sample_msg(message: &str, raw: &str, group_id: Option<u64>) -> PostMessageMsg {
    PostMessageMsg {
        post_type: PostMessageType::Message,
        message_type: if group_id.is_some() { MessageType::Group } else { MessageType::Private },
        time: 1678336087,
        self_id: 222,
        user_id: 999,
        sub_type: "normal".to_string(),
        sender: Sender {
            age: 0,
            nickname: "Mr.Eucalypt".to_string(),
            sex: "unknown".to_string(),
            user_id: 999,
        },
        message: message.to_string(),
        raw_message: raw.to_string(),
        message_id: 1206430729,
        font: 0,
        group_id,
        target_id: None,
    }
}

#[test]
fn at_mention_is_detected_and_cq_codes_are_stripped() {
    let msg = sample_msg("[CQ:at,qq=222] 1", "[CQ:at,qq=222] 1", Some(777));
    let (is_at, cleaned) = msg.pre_parse_msg(222);
    assert!(is_at);
    assert_eq!(cleaned.message(), "1");
    assert_eq!(cleaned.user_id(), 999);
    assert_eq!(cleaned.group_id(), 777);
    assert_eq!(cleaned.message_ts(), 1678336087);
}

#[test]
fn plain_private_message_passes_through() {
    let msg = sample_msg("\u{67e0}\u{6aac}\u{8336} 1", "\u{67e0}\u{6aac}\u{8336} 1", None);
    let (is_at, cleaned) = msg.pre_parse_msg(222);
    assert!(!is_at);
    assert_eq!(cleaned.message(), "\u{67e0}\u{6aac}\u{8336} 1");
    assert_eq!(cleaned.group_id(), 0);
    assert_eq!(*cleaned.message_type(), MessageType::Private);
}

#[test]
fn image_only_message_strips_to_nothing() {
    let code = "[CQ:image,file=7ecb49dcfcdcca29feb728cf8811bb37.image,url=https://example.invalid/0?term=2]";
    let msg = sample_msg(code, code, None);
    let (is_at, cleaned) = msg.pre_parse_msg(222);
    assert!(!is_at);
    assert_eq!(cleaned.message(), "");
}

#[test]
fn mention_of_someone_else_is_not_an_at() {
    let msg = sample_msg("[CQ:at,qq=333] hello", "[CQ:at,qq=333] hello", Some(777));
    let (is_at, cleaned) = msg.pre_parse_msg(222);
    assert!(!is_at);
    assert_eq!(cleaned.message(), "hello");
}

#[test]
fn cq_stripping_handles_edges() {
    assert_eq!(strip_cq_codes("a[CQ:x]b[CQ:y]c"), "abc");
    assert_eq!(strip_cq_codes("no codes here"), "no codes here");
    // an unterminated code is kept as it stands
    assert_eq!(strip_cq_codes("oops [CQ:x"), "oops [CQ:x");
    // a line break interrupts a code
    assert_eq!(strip_cq_codes("a[CQ:x\n]b"), "a[CQ:x\n]b");
    assert_eq!(trim_str("  hi there \t"), "hi there");
    assert_eq!(trim_str(" \t "), "");
    // trimming follows the Unicode whitespace set
    assert_eq!(trim_str("\u{3000}hi\u{a0}"), "hi");
}

#[test]
fn outbound_messages_are_addressed() {
    let m = SendMsg::new_message(None, 42, "hello".to_string());
    assert_eq!(m.action, SendMsgAction::SendPrivateMsg);
    assert_eq!(m.params.user_id, Some(42));
    assert_eq!(m.params.group_id, None);
    assert_eq!(m.params.message, "hello");

    let m = SendMsg::new_message(Some(777), 42, "hello".to_string());
    assert_eq!(m.action, SendMsgAction::SendGroupMsg);
    assert_eq!(m.params.user_id, None);
    assert_eq!(m.params.group_id, Some(777));
    assert_eq!(m.params.message, "[CQ:at,qq=42]hello");
}

#[test]
fn request_rendering() {
    assert_eq!(RequestType::Friend.text(), "friend");
    assert_eq!(RequestType::Group.text(), "group");
    let req = qbot::msg::PostRequestMsg {
        post_type: PostMessageType::Request,
        request_type: RequestType::Friend,
        time: 1678697473,
        self_id: 2221488475,
        user_id: 948211941,
        comment: "".to_string(),
        flag: "1678697473000000".to_string(),
    };
    assert_eq!(req.text(), "type: friend, user_id: 948211941, comment:");
}

#[test]
fn gpt_error_fragments_are_extracted() {
    let resp = "{\"error\": {\"message\": \"quota exceeded\", \"code\": 429}}";
    assert_eq!(extract_gpt_error(resp), Some("message\": \"quota exceeded\"".to_string()));
    assert_eq!(extract_gpt_error("{\"ok\": true}"), None);
    // the fragment must close on the same line
    assert_eq!(extract_gpt_error("message\": \"broken\nrest"), None);
}

#[test]
fn bot_errors_render() {
    assert_eq!(
        BotError::HttpsRequestError("timeout".to_string()).message(),
        "error:HttpsRequestError timeout"
    );
    assert_eq!(
        BotError::GPTReturnError("bad json".to_string()).message(),
        "error:GPTReturnError bad json"
    );
}
