use tg_assistant::db::context_from_rows;
use tg_assistant::gemini::GeminiClient;
use tg_assistant::models::{ChatContext, ChatMessage};
use tg_assistant::time::Timestamp;

fn message(id: i64) -> ChatMessage {
    ChatMessage {
        message_id: id,
        reply_to_id: None,
        quote: None,
        forward_from: None,
        user_id: 1,
        user_name: "u".to_string(),
        content: "c".to_string(),
        timestamp: Timestamp::new(id, 0).unwrap(),
    }
}

#[test]
fn summary_defaults_to_empty() {
    assert_eq!(context_from_rows(None, vec![]).summary, "");
    assert_eq!(context_from_rows(Some(None), vec![]).summary, "");
    let ctx = context_from_rows(Some(Some("sum".to_string())), vec![message(3), message(4)]);
    assert_eq!(ctx.summary, "sum");
    let ids: Vec<i64> = ctx.messages.iter().map(|m| m.message_id).collect();
    assert_eq!(ids, vec![3, 4]);
}

#[test]
fn archiving_after_summary_keeps_newest_fifty() {
    let msgs: Vec<ChatMessage> = (0..120).map(|i| message(10 + 3 * i)).collect();
    let ctx = ChatContext { summary: String::new(), messages: msgs };
    let job = GeminiClient::new("k".to_string(), "b".to_string(), None).summary_request(&ctx).unwrap();
    let kept: Vec<i64> = ctx.messages.iter().map(|m| m.message_id).filter(|id| *id > job.last_id).collect();
    let deleted = ctx.messages.iter().filter(|m| m.message_id <= job.last_id).count();
    assert_eq!(kept.len(), 50);
    assert_eq!(deleted, 70);
    assert_eq!(kept[0], 10 + 3 * 70);
}
