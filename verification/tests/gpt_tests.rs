use qbot::gpt::{GPTMessages, GPTRecvChoice, GPTRecvMessage, GPTRole, GPTUsage};

#[test]
fn constructors_tag_roles() {
    let m = GPTMessages::new_system_message("s".to_string());
    assert_eq!(m.role(), GPTRole::System);
    assert_eq!(m.content(), "s");
    let m = GPTMessages::new_user_message("u".to_string());
    assert_eq!(m.role(), GPTRole::User);
    let m = GPTMessages::new_assist_message("a".to_string());
    assert_eq!(m.role(), GPTRole::Assistant);
    assert_eq!(m.into_contnet(), "a");
}

fn recv(choices: Vec<GPTRecvChoice>) -> GPTRecvMessage {
    GPTRecvMessage {
        id: "chatcmpl-1".to_string(),
        object: "chat.completion".to_string(),
        created: 1678331835,
        model: "gpt-3.5-turbo".to_string(),
        choices,
        usage: GPTUsage { prompt_tokens: 10, completion_tokens: 20, total_tokens: 30 },
    }
}

#[test]
fn first_choice_is_returned() {
    let r = recv(vec![
        GPTRecvChoice { message: GPTMessages::new_assist_message("first".to_string()) },
        GPTRecvChoice { message: GPTMessages::new_assist_message("second".to_string()) },
    ]);
    let m = r.get_return_msg().expect("one choice");
    assert_eq!(m.role(), GPTRole::Assistant);
    assert_eq!(m.content(), "first");
}

#[test]
fn empty_choices_return_nothing() {
    let r = recv(vec![]);
    assert!(r.get_return_msg().is_none());
}
