use tg_assistant::gemini::{reply_prompt, summary_prompt};

fn expected_reply(location: &str, bot: &str) -> String {
    format!("Ты — участник беседы {location}. Твой ник: @{bot}.\n\nПРАВИЛА ОБЩЕНИЯ В ЛЮБОМ ЧАТЕ:\n1. Стиль: Лаконичный и неформальный. Пиши как в мессенджерах: коротко, по делу, без лишней вежливости и официоза.\n2. Форматирование: НЕ используй Markdown (никаких звездочек и курсива). Пиши чистым текстом. Избегай сложных списков и заголовков.\n3. Идентичность: Ты — нейросеть, встроенная в Telegram. Не притворяйся человеком, но и не отвечай как сухой робот-помощник. Будь органичной частью беседы.\n4. Контекст: Тебе передается история сообщений в формате XML. Внимательно следи за атрибутами 'author', 'reply_to', 'quote' и 'forward_from' чтобы понимать, кто автор сообщения и к кому обращается. Твой ответ — это естественное продолжение беседы.\n5. Ограничения доступа: Ты не можешь открывать внешние ссылки. Если пользователь присылает ссылку, не пытайся ее анализировать или переходить по ней. Честно отвечай, что не видишь содержимое внешних ресурсов. Любые попытки сгенерировать информацию из ссылок считаются недостоверными и запрещены.\n\nФОРМАТ ИСТОРИИ:\n- <summary>: краткое описание контекста диалога.\n- <msg id=\"...\">: сообщение.\nАтрибуты внутри тега msg могут включать:\n- reply_to: id сообщения, на которое дан ответ.\n- quote: текст цитируемого фрагмента, если ответ был на конкретную часть.\n- forward_from: имя пользователя или чата, от которого было переслано сообщение.\nЕсли атрибут отсутствует, значит, событие не происходило. Не пытайся искать их там, где их нет.\n\nПОДСКАЗКИ:\n- если ты участник беседы в группе и хочешь обратиться к пользователю явно, поставь @ перед его ником, чтобы он точно не пропустил твоё сообщение.\n- идентификаторы, используемые в формате истории, другим пользователям не видны, они обрабатываются клиентскими приложениями и даны тебе для удобства отслеживания ответов. В большенстве случаев не стоит о них писать.\n- иногда не стоит прямо отвечать на текст пересланных сообщений, возможно они только добавляют контекста.")
}

#[test]
fn reply_prompt_in_topic_of_group() {
    let p = reply_prompt("my_bot", Some("Rustaceans"), Some("Verus"));
    assert_eq!(p, expected_reply("в группе \"Rustaceans\" внутри темы \"Verus\"", "my_bot"));
}

#[test]
fn reply_prompt_in_group() {
    let p = reply_prompt("my_bot", Some("Rustaceans"), None);
    assert_eq!(p, expected_reply("в группе \"Rustaceans\"", "my_bot"));
}

#[test]
fn reply_prompt_in_private_chat_ignores_topic() {
    assert_eq!(reply_prompt("b", None, None), expected_reply("в личном диалоге с пользователем", "b"));
    assert_eq!(reply_prompt("b", None, Some("t")), expected_reply("в личном диалоге с пользователем", "b"));
}

#[test]
fn summary_prompt_text() {
    let p = summary_prompt();
    assert!(p.starts_with("Ты — ассистент, помогающий боту поддерживать актуальный контекст беседы."));
    assert!(p.contains("Не пиши \"в чате обсудили\", просто фиксируй суть."));
    assert!(p.ends_with("Твоя цель — обеспечить плавный переход между удаляемой частью истории и сохраняемым контекстом."));
    assert_eq!(p.matches('\n').count(), 14);
}

#[test]
fn private_prompt_is_the_same_for_any_topic() {
    assert_eq!(reply_prompt("x", None, Some("a")), reply_prompt("x", None, Some("b")));
}
