use chrono::DateTime;
use tg_assistant::gemini::format_context_to_xml;
use tg_assistant::models::{ChatContext, ChatMessage};
use tg_assistant::time::Timestamp;

fn msg(
    id: i64,
    reply_to: Option<i64>,
    quote: Option<&str>,
    forward: Option<&str>,
    user: &str,
    content: &str,
    secs: i64,
) -> ChatMessage {
    ChatMessage {
        message_id: id,
        reply_to_id: reply_to,
        quote: quote.map(|q| q.to_string()),
        forward_from: forward.map(|f| f.to_string()),
        user_id: 7,
        user_name: user.to_string(),
        content: content.to_string(),
        timestamp: Timestamp::new(secs, 0).unwrap(),
    }
}

/// The rendering written the way the bot's history format describes it, with `format!`.
fn expected_xml(ctx: &ChatContext) -> String {
    let mut xml_ctx = String::new();
    if !ctx.summary.is_empty() {
        xml_ctx.push_str(&format!("<summary>\n{}\n</summary>\n", ctx.summary));
    }
    let mut prev_id: Option<i64> = None;
    for m in &ctx.messages {
        let time = DateTime::from_timestamp(m.timestamp.secs(), m.timestamp.nanos())
            .unwrap()
            .format("%d.%m.%Y %H:%M %Z")
            .to_string();
        let reply_attr = match m.reply_to_id {
            Some(id) if Some(id) != prev_id => format!(" reply_to=\"{}\"", id),
            _ => String::new(),
        };
        let sanitized_content = m.content.replace('<', "&lt;").replace('>', "&gt;");
        let mut msg_xml = format!(
            "<msg id=\"{}\" time=\"{}\" author=\"{}\" {}>",
            m.message_id, time, m.user_name, reply_attr
        );
        if let Some(ref quote) = m.quote {
            msg_xml.push_str(&format!("\n<quote>{}</quote>", quote.replace('<', "&lt;").replace('>', "&gt;")));
        }
        if let Some(ref forward_from) = m.forward_from {
            msg_xml.push_str(&format!(
                "\n<forward_from>{}</orward_from_sender_name>",
                forward_from.replace('<', "&lt;").replace('>', "&gt;")
            ));
        }
        msg_xml.push_str(&format!("\n{}\n</msg>\n", sanitized_content));
        xml_ctx.push_str(&msg_xml);
        prev_id = Some(m.message_id);
    }
    xml_ctx
}

#[test]
fn empty_context_renders_as_empty_text() {
    let ctx = ChatContext { summary: String::new(), messages: vec![] };
    assert_eq!(format_context_to_xml(&ctx), "");
}

#[test]
fn summary_only() {
    let ctx = ChatContext { summary: "we talked".to_string(), messages: vec![] };
    assert_eq!(format_context_to_xml(&ctx), "<summary>\nwe talked\n</summary>\n");
}

#[test]
fn single_message_exact_text() {
    let ctx = ChatContext {
        summary: String::new(),
        messages: vec![msg(5, None, None, None, "alice", "hi <there>", 1_700_000_000)],
    };
    assert_eq!(
        format_context_to_xml(&ctx),
        "<msg id=\"5\" time=\"14.11.2023 22:13 UTC\" author=\"alice\" >\nhi &lt;there&gt;\n</msg>\n"
    );
}

#[test]
fn reply_to_previous_message_is_left_out() {
    let ctx = ChatContext {
        summary: String::new(),
        messages: vec![
            msg(1, None, None, None, "a", "one", 0),
            msg(2, Some(1), None, None, "b", "two", 60),
            msg(3, Some(1), None, None, "c", "three", 120),
        ],
    };
    let out = format_context_to_xml(&ctx);
    assert!(out.contains("<msg id=\"2\" time=\"01.01.1970 00:01 UTC\" author=\"b\" >"));
    assert!(out.contains("<msg id=\"3\" time=\"01.01.1970 00:02 UTC\" author=\"c\"  reply_to=\"1\">"));
    assert_eq!(out, expected_xml(&ctx));
}

#[test]
fn quote_and_forward_are_escaped() {
    let ctx = ChatContext {
        summary: "s".to_string(),
        messages: vec![msg(10, Some(4), Some("<q>"), Some("<chan>"), "bob", "text", -86_400)],
    };
    let out = format_context_to_xml(&ctx);
    assert_eq!(
        out,
        "<summary>\ns\n</summary>\n<msg id=\"10\" time=\"31.12.1969 00:00 UTC\" author=\"bob\"  reply_to=\"4\">\n<quote>&lt;q&gt;</quote>\n<forward_from>&lt;chan&gt;</orward_from_sender_name>\ntext\n</msg>\n"
    );
    assert_eq!(out, expected_xml(&ctx));
}

#[test]
fn many_messages_agree_with_format_rendering() {
    let mut messages = Vec::new();
    for i in 0..30i64 {
        let reply = if i % 3 == 0 { None } else if i % 3 == 1 { Some(i - 1) } else { Some(i - 2) };
        let quote = if i % 4 == 0 { Some("q<>") } else { None };
        let fwd = if i % 5 == 0 { Some("f>") } else { None };
        messages.push(msg(i * 7 - 50, reply.map(|r| r * 7 - 50), quote, fwd, "user", "<b>x</b>", 1_000_000 * i));
    }
    let ctx = ChatContext { summary: "old <summary>".to_string(), messages };
    assert_eq!(format_context_to_xml(&ctx), expected_xml(&ctx));
}

#[test]
fn appending_a_message_appends_its_element() {
    let first = vec![msg(1, None, None, None, "a", "one", 0), msg(2, None, None, None, "b", "two", 60)];
    let before = format_context_to_xml(&ChatContext { summary: "s".to_string(), messages: first.clone() });
    let mut more = first;
    more.push(msg(3, Some(2), None, None, "c", "three", 120));
    let after = format_context_to_xml(&ChatContext { summary: "s".to_string(), messages: more });
    assert_eq!(
        after,
        format!("{}<msg id=\"3\" time=\"01.01.1970 00:02 UTC\" author=\"c\" >\nthree\n</msg>\n", before)
    );
}
