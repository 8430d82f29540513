use tg_assistant::gemini::{
    build_request, format_context_to_xml, reply_prompt, reply_text, summary_prompt, Candidate, GeminiClient,
    GeminiContent, GeminiError, GeminiPart, GeminiResponse, SummaryError,
};
use tg_assistant::models::{ChatContext, ChatMessage};
use tg_assistant::time::Timestamp;

fn message(id: i64) -> ChatMessage {
    ChatMessage {
        message_id: id,
        reply_to_id: None,
        quote: None,
        forward_from: None,
        user_id: 1,
        user_name: format!("user{}", id),
        content: format!("text {}", id),
        timestamp: Timestamp::new(1_700_000_000 + id, 0).unwrap(),
    }
}

fn context(n: i64) -> ChatContext {
    ChatContext { summary: "earlier".to_string(), messages: (1..=n).map(message).collect() }
}

fn content(texts: &[&str]) -> GeminiContent {
    GeminiContent { parts: texts.iter().map(|t| GeminiPart { text: t.to_string() }).collect() }
}

#[test]
fn default_model_is_used_without_choice() {
    let c = GeminiClient::new("KEY".to_string(), "bot".to_string(), None);
    assert_eq!(
        c.request_url(),
        "https://generativelanguage.googleapis.com/v1beta/models/gemini-2.5-flash:generateContent?key=KEY"
    );
}

#[test]
fn chosen_model_is_used() {
    let c = GeminiClient::new("k2".to_string(), "bot".to_string(), Some("gemini-pro".to_string()));
    assert_eq!(c.request_url(), "https://generativelanguage.googleapis.com/v1beta/models/gemini-pro:generateContent?key=k2");
}

#[test]
fn request_has_one_instruction_part_and_one_turn() {
    let r = build_request("sys".to_string(), "user".to_string());
    assert_eq!(r.system_instruction.parts.len(), 1);
    assert_eq!(r.system_instruction.parts[0].text, "sys");
    assert_eq!(r.contents.len(), 1);
    assert_eq!(r.contents[0].parts.len(), 1);
    assert_eq!(r.contents[0].parts[0].text, "user");
}

#[test]
fn reply_request_carries_prompt_and_history() {
    let c = GeminiClient::new("k".to_string(), "helper_bot".to_string(), None);
    let ctx = context(3);
    let r = c.reply_request(&ctx, Some("Group"), None);
    assert_eq!(r.system_instruction.parts[0].text, reply_prompt("helper_bot", Some("Group"), None));
    assert_eq!(r.contents[0].parts[0].text, format_context_to_xml(&ctx));
}

#[test]
fn answer_text_is_first_part_of_first_candidate() {
    let resp = GeminiResponse {
        candidates: Some(vec![
            Candidate { content: content(&["first", "second"]) },
            Candidate { content: content(&["other"]) },
        ]),
    };
    assert_eq!(reply_text(resp), Ok("first".to_string()));
}

#[test]
fn missing_answer_is_an_error() {
    assert_eq!(reply_text(GeminiResponse { candidates: None }), Err(GeminiError::NoAnswer));
    assert_eq!(reply_text(GeminiResponse { candidates: Some(vec![]) }), Err(GeminiError::NoAnswer));
    let empty_first = GeminiResponse {
        candidates: Some(vec![Candidate { content: content(&[]) }, Candidate { content: content(&["x"]) }]),
    };
    assert_eq!(reply_text(empty_first), Err(GeminiError::NoAnswer));
    assert_eq!(GeminiError::NoAnswer.message(), "Не удалось получить ответ от API");
}

#[test]
fn short_conversation_is_not_summarized() {
    let c = GeminiClient::new("k".to_string(), "bot".to_string(), None);
    for n in [0i64, 1, 50, 100] {
        let r = c.summary_request(&context(n));
        assert!(matches!(r, Err(SummaryError::NotEnoughMessages)));
    }
    assert_eq!(SummaryError::NotEnoughMessages.message(), "Недостаточно сообщений для архивации");
}

#[test]
fn summary_covers_all_but_newest_fifty() {
    let c = GeminiClient::new("k".to_string(), "bot".to_string(), None);
    let ctx = context(130);
    let job = c.summary_request(&ctx).unwrap();
    assert_eq!(job.last_id, 80);
    let older = ChatContext { summary: "earlier".to_string(), messages: (1..=80).map(message).collect() };
    assert_eq!(job.request.system_instruction.parts[0].text, summary_prompt());
    assert_eq!(job.request.contents[0].parts[0].text, format_context_to_xml(&older));
}

#[test]
fn smallest_summarized_conversation() {
    let c = GeminiClient::new("k".to_string(), "bot".to_string(), None);
    let job = c.summary_request(&context(101)).unwrap();
    assert_eq!(job.last_id, 51);
}
